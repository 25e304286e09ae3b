//! Sizes, in bytes, of the stored form of each kind of field.

use vstd::prelude::*;

verus! {

pub const DISCRIMINATOR_SIZE: usize = 8;

pub const PUBKEY_SIZE: usize = 32;

pub const U8_SIZE: usize = 1;

pub const U64_SIZE: usize = 8;

pub const U128_SIZE: usize = 16;

pub const I64_SIZE: usize = 8;

pub const BOOL_SIZE: usize = 1;

pub const VECTOR_OVERHEAD_SIZE: usize = 4;

pub const INVOKED_ACCOUNT_SIZE: usize = 36;

} // verus!
