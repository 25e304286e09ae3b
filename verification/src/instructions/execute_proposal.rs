use crate::errors::ErrorCode;
use crate::invoke::{
    build, check, is_call_of, lemma_tampered_account_is_found, mismatch, AccountInfo, Instruction,
};
use crate::pubkey::Pubkey;
use crate::schema::dao::Dao;
use crate::schema::proposal::Proposal;
use crate::traits::{Age, Consensus, Permission};
use vstd::prelude::*;

verus! {

/// Why the call of a proposal is not handed out for dispatch, if it is not:
/// the first guard that fails, in the order permission, execution, consent,
/// time, live accounts. The clock is read only for a proposal that has consent.
pub open spec fn rejection(
    dao: Dao,
    proposal: Proposal,
    caller: Pubkey,
    invoked_program: Pubkey,
    remaining_accounts: Seq<AccountInfo>,
    clock: Option<i64>,
) -> Option<ErrorCode> {
    if !dao.may_execute(caller) {
        Some(ErrorCode::NoPermission)
    } else if proposal.executed {
        Some(ErrorCode::ExecutedProposal)
    } else if !proposal.spec_is_consented() {
        Some(ErrorCode::NotConsentedProposal)
    } else if clock is None {
        Some(ErrorCode::InvalidCurrentDate)
    } else if !proposal.ended_at(clock->0) {
        Some(ErrorCode::NotConsentedProposal)
    } else {
        mismatch(proposal.invoked_program, proposal.accounts@, invoked_program, remaining_accounts)
    }
}

/// Decides whether `caller` may have the recorded call of the proposal
/// dispatched now, with `invoked_program` and `remaining_accounts` as the host
/// holds them live, and puts the call together.
///
/// The result is the call to dispatch under the DAO's signing authority. No
/// record changes here: the execution is written down by `commit`, once the
/// dispatch has succeeded.
pub fn exec(
    dao: &Dao,
    proposal: &Proposal,
    caller: Pubkey,
    invoked_program: Pubkey,
    remaining_accounts: &Vec<AccountInfo>,
    clock: Option<i64>,
) -> (prepared: Result<Instruction, ErrorCode>)
    ensures
        match prepared {
            Ok(call) => {
                &&& rejection(
                    *dao,
                    *proposal,
                    caller,
                    invoked_program,
                    remaining_accounts@,
                    clock,
                ) is None
                &&& is_call_of(call, proposal.invoked_program, proposal.accounts@, proposal.data@)
            },
            Err(error) => rejection(
                *dao,
                *proposal,
                caller,
                invoked_program,
                remaining_accounts@,
                clock,
            ) == Some(error),
        },
{
    if !dao.is_authorized_to_execute(caller) {
        return Err(ErrorCode::NoPermission);
    }
    if proposal.is_executed() {
        return Err(ErrorCode::ExecutedProposal);
    }
    if !proposal.is_consented() {
        return Err(ErrorCode::NotConsentedProposal);
    }
    let now = match clock {
        Some(now) => now,
        None => return Err(ErrorCode::InvalidCurrentDate),
    };
    if !proposal.is_ended(now) {
        return Err(ErrorCode::NotConsentedProposal);
    }
    check(&proposal.invoked_program, &proposal.accounts, &invoked_program, remaining_accounts)?;
    Ok(build(&proposal.invoked_program, &proposal.accounts, &proposal.data))
}

/// Writes down that the call of the proposal was dispatched. A proposal that
/// is executed already is refused and stays as it is.
pub fn commit(proposal: &mut Proposal) -> (committed: Result<(), ErrorCode>)
    ensures
        match committed {
            Ok(()) => {
                &&& !old(proposal).executed
                &&& *final(proposal) == (Proposal { executed: true, ..*old(proposal) })
                &&& old(proposal).well_formed() ==> final(proposal).well_formed()
            },
            Err(error) => {
                &&& old(proposal).executed
                &&& error == ErrorCode::ExecutedProposal
                &&& *final(proposal) == *old(proposal)
            },
        },
{
    if proposal.is_executed() {
        return Err(ErrorCode::ExecutedProposal);
    }
    proposal.executed = true;
    Ok(())
}

/// A proposal is executed once. After an execution was written down, no call
/// is handed out for it again, whoever asks, whenever, and with whatever
/// accounts: whoever may execute is told that the proposal is executed, and
/// anyone else that they have no permission. Nor is a second execution written
/// down.
pub proof fn lemma_executed_only_once(
    before: Proposal,
    after: Proposal,
    dao: Dao,
    caller: Pubkey,
    invoked_program: Pubkey,
    remaining_accounts: Seq<AccountInfo>,
    clock: Option<i64>,
)
    requires
        !before.executed,
        after == (Proposal { executed: true, ..before }),
    ensures
        rejection(dao, after, caller, invoked_program, remaining_accounts, clock) == Some(
            if dao.may_execute(caller) {
                ErrorCode::ExecutedProposal
            } else {
                ErrorCode::NoPermission
            },
        ),
{
}

/// Where a call was handed out for live accounts, none is handed out once a
/// single one of these accounts is replaced by one that differs from it in its
/// key or in a flag: the attempt is refused as inconsistent. Since handing out
/// a call changes no record, the proposal stays unexecuted.
pub proof fn lemma_tampering_is_refused(
    dao: Dao,
    proposal: Proposal,
    caller: Pubkey,
    invoked_program: Pubkey,
    remaining_accounts: Seq<AccountInfo>,
    clock: Option<i64>,
    position: int,
    forged: AccountInfo,
)
    requires
        rejection(dao, proposal, caller, invoked_program, remaining_accounts, clock) is None,
        0 <= position < remaining_accounts.len(),
        forged != remaining_accounts[position],
    ensures
        rejection(
            dao,
            proposal,
            caller,
            invoked_program,
            remaining_accounts.update(position, forged),
            clock,
        ) == Some(ErrorCode::InconsistentProposal),
{
    lemma_tampered_account_is_found(
        proposal.invoked_program,
        proposal.accounts@,
        invoked_program,
        remaining_accounts,
        position,
        forged,
    );
}

} // verus!
