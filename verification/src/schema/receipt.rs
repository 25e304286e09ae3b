use crate::constants::{DISCRIMINATOR_SIZE, I64_SIZE, PUBKEY_SIZE, U128_SIZE, U64_SIZE, U8_SIZE};
use crate::pubkey::Pubkey;
use crate::schema::proposal::{power_of, ConsensusMechanism};
use vstd::prelude::*;

verus! {

/// The side a vote was cast on.
#[derive(Clone, Copy, Debug, PartialEq, Eq, Structural)]
pub enum ReceiptAction {
    VoteFor,
    VoteAgainst,
}

impl Default for ReceiptAction {
    fn default() -> (action: Self)
        ensures
            action == ReceiptAction::VoteFor,
    {
        ReceiptAction::VoteFor
    }
}

/// One voter's stake in one proposal: the tokens held in escrow and the power
/// they were counted with.
#[derive(Clone, Copy, Debug, PartialEq, Eq)]
pub struct Receipt {
    pub index: u64,
    pub authority: Pubkey,
    pub proposal: Pubkey,
    pub mint_nft: Pubkey,
    pub amount: u64,
    pub power: u128,
    pub locked_date: i64,
    pub unlocked_date: i64,
    pub action: ReceiptAction,
}

impl Receipt {
    /// A receipt that no vote has filled yet.
    pub open spec fn blank(index: u64, authority: Pubkey, proposal: Pubkey, mint_nft: Pubkey) -> Receipt {
        Receipt {
            index,
            authority,
            proposal,
            mint_nft,
            amount: 0,
            power: 0,
            locked_date: 0,
            unlocked_date: 0,
            action: ReceiptAction::VoteFor,
        }
    }

    /// The power is the one that the tokens and the dates of the receipt give
    /// under the mechanism.
    pub open spec fn power_is_derived(&self, mechanism: ConsensusMechanism) -> bool {
        power_of(mechanism, self.amount, self.locked_date, self.unlocked_date) == Some(self.power)
    }

    pub fn new(index: u64, authority: Pubkey, proposal: Pubkey, mint_nft: Pubkey) -> (receipt:
        Receipt)
        ensures
            receipt == Receipt::blank(index, authority, proposal, mint_nft),
    {
        Receipt {
            index,
            authority,
            proposal,
            mint_nft,
            amount: 0,
            power: 0,
            locked_date: 0,
            unlocked_date: 0,
            action: ReceiptAction::VoteFor,
        }
    }

    pub const LEN: usize = DISCRIMINATOR_SIZE + U64_SIZE + PUBKEY_SIZE + PUBKEY_SIZE + PUBKEY_SIZE
        + U64_SIZE + U128_SIZE + I64_SIZE + I64_SIZE + U8_SIZE;
}

} // verus!
