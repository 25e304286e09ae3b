use crate::errors::ErrorCode;
use crate::instructions::vote::{cast, rejection};
use crate::pubkey::Pubkey;
use crate::schema::proposal::Proposal;
use crate::schema::receipt::{Receipt, ReceiptAction};
use crate::traits::Consensus;
use vstd::prelude::*;

verus! {

#[derive(Clone, Copy, Debug, PartialEq, Eq)]
pub struct VoteAgainstEvent {
    pub authority: Pubkey,
    pub dao: Pubkey,
    pub proposal: Pubkey,
    pub receipt: Pubkey,
    /// The tokens that go into escrow.
    pub amount: u64,
}

/// Votes against the proposal stored under `proposal_key` with `amount` tokens
/// of `authority`, which the host moves into escrow.
///
/// On success the result is the voter's receipt, to be stored under
/// `receipt_key`, and the event to publish, and the proposal counts the vote.
/// On a refusal the proposal is unchanged and nothing is to be moved.
pub fn exec(
    proposal: &mut Proposal,
    authority: Pubkey,
    dao_key: Pubkey,
    proposal_key: Pubkey,
    receipt_key: Pubkey,
    index: u64,
    amount: u64,
    unlocked_date: i64,
    clock_at_start_check: Option<i64>,
    clock_at_end_check: Option<i64>,
    clock_at_lock: Option<i64>,
) -> (voted: Result<(Receipt, VoteAgainstEvent), ErrorCode>)
    ensures
        match voted {
            Ok((receipt, event)) => {
                &&& rejection(
                    *old(proposal),
                    ReceiptAction::VoteAgainst,
                    amount,
                    unlocked_date,
                    clock_at_start_check,
                    clock_at_end_check,
                    clock_at_lock,
                ) is None
                &&& old(proposal).spec_vote(
                    ReceiptAction::VoteAgainst,
                    amount,
                    unlocked_date,
                    clock_at_lock->0,
                    Receipt::blank(index, authority, proposal_key, Pubkey::zero()),
                ) == Some((*final(proposal), receipt))
                &&& event == (VoteAgainstEvent {
                    authority,
                    dao: dao_key,
                    proposal: proposal_key,
                    receipt: receipt_key,
                    amount,
                })
            },
            Err(error) => {
                &&& rejection(
                    *old(proposal),
                    ReceiptAction::VoteAgainst,
                    amount,
                    unlocked_date,
                    clock_at_start_check,
                    clock_at_end_check,
                    clock_at_lock,
                ) == Some(error)
                &&& *final(proposal) == *old(proposal)
            },
        },
{
    let mut receipt = Receipt::new(index, authority, proposal_key, Pubkey::default());
    cast(
        proposal,
        &mut receipt,
        ReceiptAction::VoteAgainst,
        amount,
        unlocked_date,
        clock_at_start_check,
        clock_at_end_check,
        clock_at_lock,
    )?;
    Ok(
        (
            receipt,
            VoteAgainstEvent {
                authority: receipt.authority,
                dao: dao_key,
                proposal: receipt.proposal,
                receipt: receipt_key,
                amount,
            },
        ),
    )
}

} // verus!
