use crate::errors::ErrorCode;
use crate::instructions::close::released;
pub use crate::instructions::close::CloseEvent;
use crate::pubkey::Pubkey;
use crate::nft::Metadata;
use crate::schema::dao::Dao;
use crate::schema::proposal::Proposal;
use crate::schema::receipt::Receipt;
use crate::traits::Age;
use vstd::prelude::*;

verus! {

/// Why the receipt of a token vote is not closed, if it is not: the first
/// guard that fails. The token must belong to the DAO's collection, the vote
/// must have ended by the clock's reading, and the host must have derived the
/// escrow's signing authority.
pub open spec fn rejection(
    dao: Dao,
    proposal: Proposal,
    mint: Pubkey,
    metadata: Metadata,
    treasurer_bump: Option<u8>,
    clock: Option<i64>,
) -> Option<ErrorCode> {
    if !(dao.mint == metadata.collection && mint == metadata.mint) {
        Some(ErrorCode::InvalidNftCollection)
    } else if clock is None {
        Some(ErrorCode::InvalidCurrentDate)
    } else if !proposal.ended_at(clock->0) {
        Some(ErrorCode::NotEndedProposal)
    } else if treasurer_bump is None {
        Some(ErrorCode::NoBump)
    } else {
        None
    }
}

/// Closes the receipt of a vote that was cast with the token `mint`, once the
/// vote has ended.
///
/// On success the event names the voter and the tokens that the receipt held,
/// which the host hands back out of escrow, and the receipt holds no tokens
/// any more. On a refusal the receipt is unchanged and nothing is to be moved.
pub fn exec(
    dao: &Dao,
    proposal: &Proposal,
    receipt: &mut Receipt,
    receipt_key: Pubkey,
    mint: Pubkey,
    metadata: &Metadata,
    treasurer_bump: Option<u8>,
    clock: Option<i64>,
) -> (closed: Result<CloseEvent, ErrorCode>)
    ensures
        match closed {
            Ok(event) => {
                &&& rejection(*dao, *proposal, mint, *metadata, treasurer_bump, clock) is None
                &&& event == (CloseEvent {
                    authority: old(receipt).authority,
                    receipt: receipt_key,
                    mint,
                    amount: released(*old(receipt)),
                })
                &&& *final(receipt) == (Receipt { amount: 0, ..*old(receipt) })
            },
            Err(error) => {
                &&& rejection(*dao, *proposal, mint, *metadata, treasurer_bump, clock) == Some(
                    error,
                )
                &&& *final(receipt) == *old(receipt)
            },
        },
{
    if !dao.is_valid_mint_nft(mint, metadata) {
        return Err(ErrorCode::InvalidNftCollection);
    }
    let now = match clock {
        Some(now) => now,
        None => return Err(ErrorCode::InvalidCurrentDate),
    };
    if !proposal.is_ended(now) {
        return Err(ErrorCode::NotEndedProposal);
    }
    if treasurer_bump.is_none() {
        return Err(ErrorCode::NoBump);
    }
    let amount = receipt.amount;
    receipt.amount = 0;
    Ok(CloseEvent { authority: receipt.authority, receipt: receipt_key, mint, amount })
}

} // verus!
