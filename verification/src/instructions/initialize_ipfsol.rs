use crate::pubkey::Pubkey;
use crate::schema::ipfsol::Ipfsol;
use vstd::prelude::*;

verus! {

/// The content identifier that `authority` pins under the tag `discriminator`.
pub fn exec(authority: Pubkey, discriminator: [u8; 8], cid: [u8; 32]) -> (ipfsol: Ipfsol)
    ensures
        ipfsol == (Ipfsol { authority, discriminator, cid }),
{
    Ipfsol { authority, discriminator, cid }
}

} // verus!
