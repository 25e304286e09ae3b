use crate::charges::Charges;
use crate::errors::ErrorCode;
use crate::instructions::vote::cast;
pub use crate::instructions::vote_against::VoteAgainstEvent;
use crate::pubkey::Pubkey;
use crate::nft::Metadata;
use crate::schema::dao::Dao;
use crate::schema::proposal::Proposal;
use crate::schema::receipt::{Receipt, ReceiptAction};
use crate::traits::Consensus;
use vstd::prelude::*;

verus! {

/// Why a vote with a token of a collection is not counted, if it is not: the
/// token does not belong to the DAO's collection, or the vote is refused as any
/// vote of one token, committed to the end of the vote, would be.
pub open spec fn rejection(
    dao: Dao,
    proposal: Proposal,
    mint_nft: Pubkey,
    metadata: Metadata,
    clock_at_start_check: Option<i64>,
    clock_at_end_check: Option<i64>,
    clock_at_lock: Option<i64>,
) -> Option<ErrorCode> {
    if !(dao.mint == metadata.collection && mint_nft == metadata.mint) {
        Some(ErrorCode::InvalidNftCollection)
    } else {
        crate::instructions::vote::rejection(
            proposal,
            ReceiptAction::VoteAgainst,
            1,
            proposal.end_date,
            clock_at_start_check,
            clock_at_end_check,
            clock_at_lock,
        )
    }
}

/// Votes against the proposal stored under `proposal_key` with the token
/// `mint_nft`, which counts as one token committed to the end of the vote and
/// which the host moves into escrow.
///
/// On success the result is the voter's receipt, to be stored under
/// `receipt_key`, the event to publish and the payments to take from the
/// voter, and the proposal counts the vote. On a refusal the proposal is
/// unchanged and nothing is to be moved or paid.
pub fn exec(
    dao: &Dao,
    proposal: &mut Proposal,
    authority: Pubkey,
    dao_key: Pubkey,
    proposal_key: Pubkey,
    receipt_key: Pubkey,
    mint_nft: Pubkey,
    metadata: &Metadata,
    index: u64,
    tax: u64,
    revenue: u64,
    clock_at_start_check: Option<i64>,
    clock_at_end_check: Option<i64>,
    clock_at_lock: Option<i64>,
) -> (voted: Result<(Receipt, VoteAgainstEvent, Charges), ErrorCode>)
    ensures
        match voted {
            Ok((receipt, event, charges)) => {
                &&& rejection(
                    *dao,
                    *old(proposal),
                    mint_nft,
                    *metadata,
                    clock_at_start_check,
                    clock_at_end_check,
                    clock_at_lock,
                ) is None
                &&& old(proposal).spec_vote(
                    ReceiptAction::VoteAgainst,
                    1,
                    old(proposal).end_date,
                    clock_at_lock->0,
                    Receipt::blank(index, authority, proposal_key, mint_nft),
                ) == Some((*final(proposal), receipt))
                &&& event == (VoteAgainstEvent {
                    authority,
                    dao: dao_key,
                    proposal: proposal_key,
                    receipt: receipt_key,
                    amount: 1,
                })
                &&& charges == Charges::due(tax, revenue)
            },
            Err(error) => {
                &&& rejection(
                    *dao,
                    *old(proposal),
                    mint_nft,
                    *metadata,
                    clock_at_start_check,
                    clock_at_end_check,
                    clock_at_lock,
                ) == Some(error)
                &&& *final(proposal) == *old(proposal)
            },
        },
{
    let amount: u64 = 1;
    if !dao.is_valid_mint_nft(mint_nft, metadata) {
        return Err(ErrorCode::InvalidNftCollection);
    }
    let mut receipt = Receipt::new(index, authority, proposal_key, mint_nft);
    let unlocked_date = proposal.end_date;
    cast(
        proposal,
        &mut receipt,
        ReceiptAction::VoteAgainst,
        amount,
        unlocked_date,
        clock_at_start_check,
        clock_at_end_check,
        clock_at_lock,
    )?;
    Ok(
        (
            receipt,
            VoteAgainstEvent {
                authority: receipt.authority,
                dao: dao_key,
                proposal: receipt.proposal,
                receipt: receipt_key,
                amount,
            },
            Charges::new(tax, revenue),
        ),
    )
}

} // verus!
