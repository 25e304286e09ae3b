use crate::constants::{DISCRIMINATOR_SIZE, PUBKEY_SIZE, U64_SIZE, U8_SIZE};
use crate::nft::Metadata;
use crate::pubkey::Pubkey;
use crate::traits::Permission;
use vstd::prelude::*;

verus! {

/// Who governs a DAO.
#[derive(Clone, Copy, Debug, PartialEq, Eq, Structural)]
pub enum DaoRegime {
    /// Only the authority raises and executes proposals.
    Dictatorial,
    /// Anyone raises proposals; the authority executes them.
    Democratic,
    /// Anyone raises and executes proposals.
    Autonomous,
}

impl Default for DaoRegime {
    fn default() -> (regime: Self)
        ensures
            regime == DaoRegime::Dictatorial,
    {
        DaoRegime::Dictatorial
    }
}

#[derive(Clone, Copy, Debug, PartialEq, Eq)]
pub struct Dao {
    /// The authority, derived from the DAO's own key, that signs executed calls.
    pub master: Pubkey,
    pub authority: Pubkey,
    /// The token that votes are staked in.
    pub mint: Pubkey,
    pub regime: DaoRegime,
    /// The votable power that a new proposal starts from.
    pub supply: u64,
    /// The number of proposals raised so far, and the index of the next one.
    pub nonce: u64,
    pub metadata: [u8; 32],
    pub is_nft: bool,
    pub is_public: bool,
}

impl Dao {
    pub const LEN: usize = DISCRIMINATOR_SIZE + PUBKEY_SIZE + PUBKEY_SIZE + PUBKEY_SIZE + U8_SIZE
        + U64_SIZE + U64_SIZE + U8_SIZE * 32 + U8_SIZE + U8_SIZE;

    /// Whether `mint_nft` is the token that `metadata` describes and belongs to
    /// the collection that this DAO counts votes in.
    pub fn is_valid_mint_nft(&self, mint_nft: Pubkey, metadata: &Metadata) -> (valid: bool)
        ensures
            valid == (self.mint == metadata.collection && mint_nft == metadata.mint),
    {
        self.mint.equals(&metadata.collection) && mint_nft.equals(&metadata.mint)
    }
}

impl Permission for Dao {
    open spec fn may_propose(&self, caller: Pubkey) -> bool {
        match self.regime {
            DaoRegime::Dictatorial => self.authority == caller,
            DaoRegime::Democratic => true,
            DaoRegime::Autonomous => true,
        }
    }

    open spec fn may_execute(&self, caller: Pubkey) -> bool {
        match self.regime {
            DaoRegime::Dictatorial => self.authority == caller,
            DaoRegime::Democratic => self.authority == caller,
            DaoRegime::Autonomous => true,
        }
    }

    fn is_authorized_to_propose(&self, caller: Pubkey) -> (allowed: bool) {
        match self.regime {
            DaoRegime::Dictatorial => self.authority.equals(&caller),
            DaoRegime::Democratic => true,
            DaoRegime::Autonomous => true,
        }
    }

    fn is_authorized_to_execute(&self, caller: Pubkey) -> (allowed: bool) {
        match self.regime {
            DaoRegime::Dictatorial => self.authority.equals(&caller),
            DaoRegime::Democratic => self.authority.equals(&caller),
            DaoRegime::Autonomous => true,
        }
    }
}

} // verus!
