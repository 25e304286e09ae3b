use crate::errors::ErrorCode;
use crate::pubkey::Pubkey;
use crate::schema::proposal::Proposal;
use crate::schema::receipt::Receipt;
use crate::traits::Age;
use vstd::prelude::*;

verus! {

#[derive(Clone, Copy, Debug, PartialEq, Eq)]
pub struct CloseEvent {
    pub authority: Pubkey,
    pub receipt: Pubkey,
    pub mint: Pubkey,
    /// The tokens that leave escrow.
    pub amount: u64,
}

/// The tokens that are handed back when a receipt is closed: all it holds.
pub open spec fn released(receipt: Receipt) -> u64 {
    receipt.amount
}

/// The receipt once it is closed: it holds no tokens and no power any more.
pub open spec fn closed(receipt: Receipt) -> Receipt {
    Receipt { amount: 0, power: 0, ..receipt }
}

/// Why a receipt is not closed, if it is not: the first guard that fails. The
/// vote must have ended by the clock's reading, and the host must have derived
/// the escrow's signing authority.
pub open spec fn rejection(proposal: Proposal, treasurer_bump: Option<u8>, clock: Option<i64>) -> Option<
    ErrorCode,
> {
    if clock is None {
        Some(ErrorCode::InvalidCurrentDate)
    } else if !proposal.ended_at(clock->0) {
        Some(ErrorCode::NotEndedProposal)
    } else if treasurer_bump is None {
        Some(ErrorCode::NoBump)
    } else {
        None
    }
}

/// Closes the receipt stored under `receipt_key` once the vote has ended,
/// whatever became of the proposal.
///
/// On success the event names the voter and all the tokens that the receipt
/// held, which the host hands back out of escrow, and the receipt holds no
/// tokens and no power any more. On a refusal the receipt is unchanged and
/// nothing is to be moved.
pub fn exec(
    proposal: &Proposal,
    receipt: &mut Receipt,
    receipt_key: Pubkey,
    mint: Pubkey,
    treasurer_bump: Option<u8>,
    clock: Option<i64>,
) -> (outcome: Result<CloseEvent, ErrorCode>)
    ensures
        match outcome {
            Ok(event) => {
                &&& rejection(*proposal, treasurer_bump, clock) is None
                &&& event == (CloseEvent {
                    authority: old(receipt).authority,
                    receipt: receipt_key,
                    mint,
                    amount: released(*old(receipt)),
                })
                &&& *final(receipt) == closed(*old(receipt))
            },
            Err(error) => {
                &&& rejection(*proposal, treasurer_bump, clock) == Some(error)
                &&& *final(receipt) == *old(receipt)
            },
        },
{
    let now = match clock {
        Some(now) => now,
        None => return Err(ErrorCode::InvalidCurrentDate),
    };
    if !proposal.is_ended(now) {
        return Err(ErrorCode::NotEndedProposal);
    }
    if treasurer_bump.is_none() {
        return Err(ErrorCode::NoBump);
    }
    let event = CloseEvent {
        authority: receipt.authority,
        receipt: receipt_key,
        mint,
        amount: receipt.amount,
    };
    receipt.amount = 0;
    receipt.power = 0;
    Ok(event)
}

} // verus!
