//! Range-checked conversions between the integer types of the records.

use num_traits::ToPrimitive;
use vstd::prelude::*;

verus! {

/// `ToPrimitive::to_u128` of `num_traits` on a `u64`: every `u64` is a `u128`,
/// so the conversion always gives the same number.
#[verifier::external_body]
pub(crate) fn u64_to_u128(value: u64) -> (wide: Option<u128>)
    ensures
        wide == Some(value as u128),
{
    value.to_u128()
}

/// `ToPrimitive::to_u128` of `num_traits` on an `i64`: the same number where it
/// is not negative, nothing where it is.
#[verifier::external_body]
pub(crate) fn i64_to_u128(value: i64) -> (wide: Option<u128>)
    ensures
        wide == if value >= 0 {
            Some(value as u128)
        } else {
            None
        },
{
    value.to_u128()
}

/// `ToPrimitive::to_u64` of `num_traits` on a `usize`: a `usize` is at most 64
/// bits wide, so the conversion always gives the same number.
#[verifier::external_body]
pub(crate) fn usize_to_u64(value: usize) -> (wide: Option<u64>)
    ensures
        wide == Some(value as u64),
{
    value.to_u64()
}

/// `ToPrimitive::to_u8` of `num_traits` on a `usize`: the same number where it
/// is at most 255, nothing where it is larger.
#[verifier::external_body]
pub(crate) fn usize_to_u8(value: usize) -> (narrow: Option<u8>)
    ensures
        narrow == if value <= 255 {
            Some(value as u8)
        } else {
            None
        },
{
    value.to_u8()
}

} // verus!
