//! The list of the guests that the hypervisor runs.

use vstd::prelude::*;
use crate::error::HyperError;

verus! {

/// The number of guests that the list can hold; the identities of guests
/// are the numbers below it.
pub const CONFIG_VM_NUM_MAX: usize = 8;

/// Whether a guest of `vms` has the identity `id`.
pub open spec fn has_vm<V>(vms: Seq<(usize, V)>, id: usize) -> bool {
    exists|i: int| 0 <= i < vms.len() && (#[trigger] vms[i]).0 == id
}

/// Whether the guest at `index` is the first of `vms` with the identity
/// `id`.
pub open spec fn first_vm<V>(vms: Seq<(usize, V)>, id: usize, index: int) -> bool {
    &&& 0 <= index < vms.len()
    &&& vms[index].0 == id
    &&& forall|j: int| 0 <= j < index ==> (#[trigger] vms[j]).0 != id
}

/// The guests, each with its identity, in the order in which they were
/// added.
pub struct VmList<V> {
    vms: Vec<(usize, V)>,
}

impl<V> View for VmList<V> {
    type V = Seq<(usize, V)>;

    closed spec fn view(&self) -> Seq<(usize, V)> {
        self.vms@
    }
}

impl<V> VmList<V> {
    /// A list without guests.
    pub fn new() -> (list: Self)
        ensures
            list@ == Seq::<(usize, V)>::empty(),
    {
        Self { vms: Vec::new() }
    }

    /// The number of guests.
    pub fn len(&self) -> (n: usize)
        ensures
            n == self@.len(),
    {
        self.vms.len()
    }

    fn position(&self, id: usize) -> (found: Option<usize>)
        ensures
            match found {
                Some(i) => first_vm(self@, id, i as int),
                None => !has_vm(self@, id),
            },
    {
        let mut i: usize = 0;
        while i < self.vms.len()
            invariant
                i <= self.vms@.len(),
                forall|j: int| 0 <= j < i ==> (#[trigger] self.vms@[j]).0 != id,
            decreases self.vms@.len() - i,
        {
            if self.vms[i].0 == id {
                return Some(i);
            }
            i += 1;
        }
        None
    }

    /// Adds the guest `vm` with the identity `id` behind those that are
    /// there.
    ///
    /// An identity that is not below `CONFIG_VM_NUM_MAX`, or that a guest
    /// of the list has, is out of range; the list is then unchanged and
    /// hands the guest back.
    pub fn push_vm(&mut self, id: usize, vm: V) -> (result: Result<(), (HyperError, V)>)
        ensures
            match result {
                Ok(_) => {
                    &&& id < CONFIG_VM_NUM_MAX
                    &&& !has_vm(old(self)@, id)
                    &&& final(self)@ == old(self)@.push((id, vm))
                },
                Err(refused) => {
                    &&& id >= CONFIG_VM_NUM_MAX || has_vm(old(self)@, id)
                    &&& refused == (HyperError::OutOfRange, vm)
                    &&& final(self)@ == old(self)@
                },
            },
    {
        if id >= CONFIG_VM_NUM_MAX {
            return Err((HyperError::OutOfRange, vm));
        }
        match self.position(id) {
            Some(_) => Err((HyperError::OutOfRange, vm)),
            None => {
                self.vms.push((id, vm));
                Ok(())
            },
        }
    }

    /// Takes the guest with the identity `id` out of the list and returns
    /// it; `None`, with the list unchanged, if there is no such guest.
    pub fn remove_vm(&mut self, id: usize) -> (removed: Option<V>)
        ensures
            match removed {
                Some(vm) => exists|i: int|
                    {
                        &&& first_vm(old(self)@, id, i)
                        &&& vm == old(self)@[i].1
                        &&& final(self)@ == old(self)@.remove(i)
                    },
                None => !has_vm(old(self)@, id) && final(self)@ == old(self)@,
            },
    {
        match self.position(id) {
            Some(i) => {
                let (_, vm) = self.vms.remove(i);
                Some(vm)
            },
            None => None,
        }
    }

    /// The guest with the identity `id`, if there is one.
    pub fn vm_by_id(&self, id: usize) -> (found: Option<&V>)
        ensures
            match found {
                Some(vm) => exists|i: int| first_vm(self@, id, i) && *vm == self@[i].1,
                None => !has_vm(self@, id),
            },
    {
        match self.position(id) {
            Some(i) => Some(&self.vms[i].1),
            None => None,
        }
    }

    /// The identities of the guests, in the order of the list.
    pub fn vm_ids(&self) -> (ids: Vec<usize>)
        ensures
            ids@ == self@.map_values(|entry: (usize, V)| entry.0),
    {
        let mut ids: Vec<usize> = Vec::new();
        let mut i: usize = 0;
        while i < self.vms.len()
            invariant
                i <= self.vms@.len(),
                ids@ == self.vms@.subrange(0, i as int).map_values(|entry: (usize, V)| entry.0),
            decreases self.vms@.len() - i,
        {
            ids.push(self.vms[i].0);
            i += 1;
            assert(ids@ =~= self.vms@.subrange(0, i as int).map_values(
                |entry: (usize, V)| entry.0,
            ));
        }
        assert(self.vms@.subrange(0, i as int) =~= self.vms@);
        ids
    }
}

/// Adding guests keeps their identities distinct: a list whose identities
/// are distinct stays so when `push_vm` accepts a guest.
pub proof fn lemma_push_keeps_ids_distinct<V>(vms: Seq<(usize, V)>, id: usize, vm: V)
    requires
        forall|i: int, j: int| 0 <= i < j < vms.len() ==> (#[trigger] vms[i]).0 != (#[trigger] vms[j]).0,
        !has_vm(vms, id),
    ensures
        forall|i: int, j: int|
            0 <= i < j < vms.push((id, vm)).len() ==> (#[trigger] vms.push((id, vm))[i]).0 != (
            #[trigger] vms.push((id, vm))[j]).0,
{
    let after = vms.push((id, vm));
    assert forall|i: int, j: int| 0 <= i < j < after.len() implies (#[trigger] after[i]).0 != (
    #[trigger] after[j]).0 by {
        if j == vms.len() {
            assert(vms[i].0 != id);
        } else {
            assert(vms[i].0 != vms[j].0);
        }
    }
}

} // verus!
