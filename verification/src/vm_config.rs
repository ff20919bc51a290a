//! What a guest's configuration says of its CPUs, its memory, its images
//! and its devices.

use vstd::prelude::*;
use vstd::string::StringSliceAdditionalSpecFns;
use crate::text::{hex_value, parse_hex};

pub mod config_entry;
pub mod cpu_config;
pub mod emulated_dev_config;
pub mod image_config;
pub mod memory_config;
pub mod passthrough_dev_config;

verus! {

/// The longest name that a configuration holds, in bytes.
pub const NAME_MAX_LENGTH: usize = 128;

/// The number of windows that one device can have.
pub const MAX_BASE_CNT: usize = 4;

/// The number that a configuration writes as `value`, in hexadecimal with
/// or without the prefix `0x`: what `hex_value` reads in the bytes of
/// `value`.
pub fn from_hex(value: &str) -> (number: Option<usize>)
    ensures
        number == hex_value(value.spec_bytes()),
{
    parse_hex(value.as_bytes())
}

/// `heapless::Vec`: a vector of fixed capacity. Nothing of its inside is
/// known here.
#[verifier::external_type_specification]
#[verifier::external_body]
#[verifier::reject_recursive_types(T)]
pub struct ExHeaplessVec<T, const N: usize>(heapless::Vec<T, N>);

/// `heapless::String`: a string of fixed capacity. Nothing of its inside
/// is known here.
#[verifier::external_type_specification]
#[verifier::external_body]
pub struct ExHeaplessString<const N: usize>(heapless::String<N>);

/// `Clone::clone` of `heapless::Vec`; nothing is claimed of the copy.
pub assume_specification<T, const N: usize>[ <heapless::Vec<T, N> as Clone>::clone ](
    list: &heapless::Vec<T, N>,
) -> heapless::Vec<T, N> where T: Clone
;

/// `Clone::clone` of `heapless::String`; nothing is claimed of the copy.
pub assume_specification<const N: usize>[ <heapless::String<N> as Clone>::clone ](
    string: &heapless::String<N>,
) -> heapless::String<N>
;

/// What a list of bases or of ranges holds, in order.
pub uninterp spec fn port_numbers(list: heapless::Vec<usize, MAX_BASE_CNT>) -> Seq<usize>;

/// `heapless::Vec::as_slice` on a list of bases or of ranges: the slice
/// holds what the list holds, which is no more than the list's capacity.
#[verifier::external_body]
pub(crate) fn port_numbers_slice(list: &heapless::Vec<usize, MAX_BASE_CNT>) -> (slice: &[usize])
    ensures
        slice@ == port_numbers(*list),
        slice@.len() <= MAX_BASE_CNT,
{
    list.as_slice()
}

} // verus!
