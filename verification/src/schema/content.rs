use crate::constants::{DISCRIMINATOR_SIZE, PUBKEY_SIZE, U8_SIZE};
use crate::pubkey::Pubkey;
use vstd::prelude::*;

verus! {

/// A piece of content that an authority published under a tag of its choice.
#[derive(Clone, Copy, Debug, PartialEq, Eq)]
pub struct Content {
    pub authority: Pubkey,
    pub discriminator: [u8; 8],
    pub metadata: [u8; 32],
}

impl Content {
    pub const LEN: usize = DISCRIMINATOR_SIZE + PUBKEY_SIZE + U8_SIZE * 8 + U8_SIZE * 32;
}

} // verus!
