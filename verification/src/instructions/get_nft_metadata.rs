use crate::errors::ErrorCode;
use crate::pubkey::Pubkey;
use crate::nft::Metadata;
use crate::schema::dao::Dao;
use vstd::prelude::*;

verus! {

/// Checks that the token `mint_nft` is the one that `metadata` describes and
/// belongs to the collection that the DAO counts votes in.
pub fn exec(dao: &Dao, mint_nft: Pubkey, metadata: &Metadata) -> (checked: Result<(), ErrorCode>)
    ensures
        checked == if dao.mint == metadata.collection && mint_nft == metadata.mint {
            Ok::<(), ErrorCode>(())
        } else {
            Err::<(), ErrorCode>(ErrorCode::InvalidNftCollection)
        },
{
    if !dao.is_valid_mint_nft(mint_nft, metadata) {
        return Err(ErrorCode::InvalidNftCollection);
    }
    Ok(())
}

} // verus!
