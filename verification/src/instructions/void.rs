use crate::errors::ErrorCode;
use crate::schema::proposal::Proposal;
use crate::schema::receipt::Receipt;
use crate::traits::{Age, Consensus};
use vstd::prelude::*;

verus! {

/// Why tokens are not taken out of the count, if they are not: the first guard
/// that fails. The vote must be running at the clock's reading, the receipt
/// and the tally must hold what is withdrawn, and the host must have derived
/// the escrow's signing authority.
pub open spec fn rejection(
    proposal: Proposal,
    receipt: Receipt,
    amount: u64,
    treasurer_bump: Option<u8>,
    clock: Option<i64>,
) -> Option<ErrorCode> {
    if clock is None {
        Some(ErrorCode::InvalidCurrentDate)
    } else if !proposal.started_at(clock->0) {
        Some(ErrorCode::NotStartedProposal)
    } else if proposal.ended_at(clock->0) {
        Some(ErrorCode::EndedProposal)
    } else if proposal.withdrawable(amount, receipt) is None {
        Some(ErrorCode::Overflow)
    } else if treasurer_bump is None {
        Some(ErrorCode::NoBump)
    } else {
        None
    }
}

/// Takes `amount` tokens of a receipt out of the count while the vote is
/// running, under either mechanism.
///
/// On success the result is the number of tokens that the host hands back out
/// of escrow, and the receipt and the tally of its side are smaller by the
/// tokens and by the power they were counted with. On a refusal both records
/// are unchanged and nothing is to be moved.
pub fn exec(
    proposal: &mut Proposal,
    receipt: &mut Receipt,
    amount: u64,
    treasurer_bump: Option<u8>,
    clock: Option<i64>,
) -> (voided: Result<u64, ErrorCode>)
    ensures
        match voided {
            Ok(released) => {
                &&& rejection(*old(proposal), *old(receipt), amount, treasurer_bump, clock) is None
                &&& old(proposal).spec_void(amount, *old(receipt)) == Some(
                    (*final(proposal), *final(receipt)),
                )
                &&& released == amount
            },
            Err(error) => {
                &&& rejection(*old(proposal), *old(receipt), amount, treasurer_bump, clock) == Some(
                    error,
                )
                &&& *final(proposal) == *old(proposal)
                &&& *final(receipt) == *old(receipt)
            },
        },
{
    let now = match clock {
        Some(now) => now,
        None => return Err(ErrorCode::InvalidCurrentDate),
    };
    if !proposal.is_started(now) {
        return Err(ErrorCode::NotStartedProposal);
    }
    if proposal.is_ended(now) {
        return Err(ErrorCode::EndedProposal);
    }
    if proposal.void_power(amount, receipt).is_none() {
        return Err(ErrorCode::Overflow);
    }
    if treasurer_bump.is_none() {
        return Err(ErrorCode::NoBump);
    }
    match proposal.void(amount, receipt) {
        Some(_) => Ok(amount),
        None => Err(ErrorCode::Overflow),
    }
}

} // verus!
