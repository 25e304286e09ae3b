use crate::errors::ErrorCode;
use crate::pubkey::Pubkey;
use crate::schema::proposal::Proposal;
use crate::schema::receipt::{Receipt, ReceiptAction};
use crate::traits::{Age, Consensus};
use vstd::prelude::*;

verus! {

/// Why a vote is not counted, if it is not: the first guard that fails. The
/// proposal must not be executed, must have started by the clock's first
/// reading and not have ended by its second, and the power of the vote, with
/// the tokens locked at the third reading, must fit into the tally.
pub open spec fn rejection(
    proposal: Proposal,
    action: ReceiptAction,
    amount: u64,
    unlocked_date: i64,
    clock_at_start_check: Option<i64>,
    clock_at_end_check: Option<i64>,
    clock_at_lock: Option<i64>,
) -> Option<ErrorCode> {
    if proposal.executed {
        Some(ErrorCode::ExecutedProposal)
    } else if clock_at_start_check is None {
        Some(ErrorCode::InvalidCurrentDate)
    } else if !proposal.started_at(clock_at_start_check->0) {
        Some(ErrorCode::NotStartedProposal)
    } else if clock_at_end_check is None {
        Some(ErrorCode::InvalidCurrentDate)
    } else if proposal.ended_at(clock_at_end_check->0) {
        Some(ErrorCode::EndedProposal)
    } else if clock_at_lock is None {
        Some(ErrorCode::InvalidCurrentDate)
    } else if proposal.countable(action, amount, unlocked_date, clock_at_lock->0) is None {
        Some(ErrorCode::Overflow)
    } else {
        None
    }
}

/// Counts a vote of `amount` tokens on the side `action` and fills `receipt`.
/// On a refusal both records are unchanged.
pub fn cast(
    proposal: &mut Proposal,
    receipt: &mut Receipt,
    action: ReceiptAction,
    amount: u64,
    unlocked_date: i64,
    clock_at_start_check: Option<i64>,
    clock_at_end_check: Option<i64>,
    clock_at_lock: Option<i64>,
) -> (counted: Result<(), ErrorCode>)
    ensures
        match counted {
            Ok(()) => {
                &&& rejection(
                    *old(proposal),
                    action,
                    amount,
                    unlocked_date,
                    clock_at_start_check,
                    clock_at_end_check,
                    clock_at_lock,
                ) is None
                &&& old(proposal).spec_vote(
                    action,
                    amount,
                    unlocked_date,
                    clock_at_lock->0,
                    *old(receipt),
                ) == Some((*final(proposal), *final(receipt)))
            },
            Err(error) => {
                &&& rejection(
                    *old(proposal),
                    action,
                    amount,
                    unlocked_date,
                    clock_at_start_check,
                    clock_at_end_check,
                    clock_at_lock,
                ) == Some(error)
                &&& *final(proposal) == *old(proposal)
                &&& *final(receipt) == *old(receipt)
            },
        },
{
    if proposal.is_executed() {
        return Err(ErrorCode::ExecutedProposal);
    }
    let now = match clock_at_start_check {
        Some(now) => now,
        None => return Err(ErrorCode::InvalidCurrentDate),
    };
    if !proposal.is_started(now) {
        return Err(ErrorCode::NotStartedProposal);
    }
    let now = match clock_at_end_check {
        Some(now) => now,
        None => return Err(ErrorCode::InvalidCurrentDate),
    };
    if proposal.is_ended(now) {
        return Err(ErrorCode::EndedProposal);
    }
    let locked_date = match clock_at_lock {
        Some(now) => now,
        None => return Err(ErrorCode::InvalidCurrentDate),
    };
    let counted = match action {
        ReceiptAction::VoteFor => proposal.vote_for(amount, unlocked_date, locked_date, receipt),
        ReceiptAction::VoteAgainst => proposal.vote_against(
            amount,
            unlocked_date,
            locked_date,
            receipt,
        ),
    };
    match counted {
        Some(_) => Ok(()),
        None => Err(ErrorCode::Overflow),
    }
}

/// Votes for the proposal stored under `proposal_key` with `amount` tokens of
/// `authority`, which the host moves into escrow.
///
/// On success the result is the voter's receipt and the proposal counts the
/// vote. On a refusal the proposal is unchanged and nothing is to be moved.
pub fn exec(
    proposal: &mut Proposal,
    authority: Pubkey,
    proposal_key: Pubkey,
    amount: u64,
    unlocked_date: i64,
    clock_at_start_check: Option<i64>,
    clock_at_end_check: Option<i64>,
    clock_at_lock: Option<i64>,
) -> (voted: Result<Receipt, ErrorCode>)
    ensures
        match voted {
            Ok(receipt) => {
                &&& rejection(
                    *old(proposal),
                    ReceiptAction::VoteFor,
                    amount,
                    unlocked_date,
                    clock_at_start_check,
                    clock_at_end_check,
                    clock_at_lock,
                ) is None
                &&& old(proposal).spec_vote(
                    ReceiptAction::VoteFor,
                    amount,
                    unlocked_date,
                    clock_at_lock->0,
                    Receipt::blank(0, authority, proposal_key, Pubkey::zero()),
                ) == Some((*final(proposal), receipt))
            },
            Err(error) => {
                &&& rejection(
                    *old(proposal),
                    ReceiptAction::VoteFor,
                    amount,
                    unlocked_date,
                    clock_at_start_check,
                    clock_at_end_check,
                    clock_at_lock,
                ) == Some(error)
                &&& *final(proposal) == *old(proposal)
            },
        },
{
    let mut receipt = Receipt::new(0, authority, proposal_key, Pubkey::default());
    cast(
        proposal,
        &mut receipt,
        ReceiptAction::VoteFor,
        amount,
        unlocked_date,
        clock_at_start_check,
        clock_at_end_check,
        clock_at_lock,
    )?;
    Ok(receipt)
}

} // verus!
