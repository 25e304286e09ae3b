use crate::constants::{DISCRIMINATOR_SIZE, PUBKEY_SIZE, U8_SIZE};
use crate::pubkey::Pubkey;
use vstd::prelude::*;

verus! {

/// A content identifier that an authority pinned under a tag of its choice.
#[derive(Clone, Copy, Debug, PartialEq, Eq)]
pub struct Ipfsol {
    pub authority: Pubkey,
    pub discriminator: [u8; 8],
    pub cid: [u8; 32],
}

impl Ipfsol {
    pub const LEN: usize = DISCRIMINATOR_SIZE + PUBKEY_SIZE + U8_SIZE * 8 + U8_SIZE * 32;
}

} // verus!
