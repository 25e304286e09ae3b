use crate::pubkey::Pubkey;
use crate::schema::content::Content;
use vstd::prelude::*;

verus! {

/// The content that `authority` publishes under the tag `discriminator`.
pub fn exec(authority: Pubkey, discriminator: [u8; 8], metadata: [u8; 32]) -> (content: Content)
    ensures
        content == (Content { authority, discriminator, metadata }),
{
    Content { authority, discriminator, metadata }
}

} // verus!
