use crate::pubkey::Pubkey;
use crate::schema::dao::{Dao, DaoRegime};
use vstd::prelude::*;

verus! {

#[derive(Clone, Copy, Debug, PartialEq, Eq)]
pub struct InitializeDAOEvent {
    pub dao: Pubkey,
    pub authority: Pubkey,
    pub mint: Pubkey,
    pub regime: DaoRegime,
    pub supply: u64,
}

/// Registers a DAO under the key `dao`. No proposal has been raised in it yet.
pub fn exec(
    dao: Pubkey,
    authority: Pubkey,
    master: Pubkey,
    mint: Pubkey,
    regime: DaoRegime,
    supply: u64,
    metadata: [u8; 32],
    is_nft: bool,
    is_public: bool,
) -> (created: (Dao, InitializeDAOEvent))
    ensures
        created.0 == (Dao {
            master,
            authority,
            mint,
            regime,
            supply,
            nonce: 0,
            metadata,
            is_nft,
            is_public,
        }),
        created.1 == (InitializeDAOEvent { dao, authority, mint, regime, supply }),
{
    let record = Dao { master, authority, mint, regime, supply, nonce: 0, metadata, is_nft, is_public };
    (record, InitializeDAOEvent { dao, authority, mint, regime, supply })
}

} // verus!
