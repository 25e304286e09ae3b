//! What the stored metadata of a token says about the token and its collection.

use crate::pubkey::Pubkey;
use mpl_token_metadata::state::TokenMetadataAccount;
use vstd::prelude::*;

verus! {

/// What the logic reads of a token's metadata: the token it describes and the
/// collection it belongs to.
#[derive(Clone, Copy, Debug, PartialEq, Eq)]
pub struct Metadata {
    pub mint: Pubkey,
    pub collection: Pubkey,
}

/// The token and, where there is one, the collection that the metadata program
/// reads out of the stored bytes of a metadata account; nothing where it does
/// not take the bytes for such an account.
pub uninterp spec fn deserialized(data: Seq<u8>) -> Option<(Pubkey, Option<Pubkey>)>;

/// `TokenMetadataAccount::safe_deserialize` of `mpl_token_metadata` for its
/// `Metadata`: what it reads is a matter of the bytes alone. Of the record that
/// it gives, the keys of the token and of the collection are handed on.
#[verifier::external_body]
fn safe_deserialize(data: &Vec<u8>) -> (read: Option<(Pubkey, Option<Pubkey>)>)
    ensures
        read == deserialized(data@),
{
    match mpl_token_metadata::state::Metadata::safe_deserialize(data.as_slice()) {
        Ok(metadata) => Some(
            (
                Pubkey(metadata.mint.to_bytes()),
                metadata.collection.map(|collection| Pubkey(collection.key.to_bytes())),
            ),
        ),
        Err(_) => None,
    }
}

impl Metadata {
    /// The metadata of a token of a collection, out of what was read from its
    /// account: nothing where nothing was read, or no collection.
    pub open spec fn spec_from_parts(read: Option<(Pubkey, Option<Pubkey>)>) -> Option<Metadata> {
        match read {
            Some((mint, Some(collection))) => Some(Metadata { mint, collection }),
            _ => None,
        }
    }

    pub fn from_parts(read: Option<(Pubkey, Option<Pubkey>)>) -> (metadata: Option<Metadata>)
        ensures
            metadata == Metadata::spec_from_parts(read),
    {
        match read {
            Some((mint, Some(collection))) => Some(Metadata { mint, collection }),
            _ => None,
        }
    }

    /// Reads the metadata of a token of a collection from the stored bytes of
    /// its metadata account.
    pub fn from_account_data(data: &Vec<u8>) -> (metadata: Option<Metadata>)
        ensures
            metadata == Metadata::spec_from_parts(deserialized(data@)),
    {
        Metadata::from_parts(safe_deserialize(data))
    }
}

} // verus!
