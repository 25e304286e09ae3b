use crate::errors::ErrorCode;
use crate::invoke::{
    build, check, is_call_of, lemma_tampered_account_is_found, mismatch, AccountInfo, Instruction,
};
use crate::pubkey::Pubkey;
use crate::schema::dao::Dao;
use crate::schema::proposal::Proposal;
use crate::schema::proposal_instruction::ProposalInstruction;
use crate::traits::{Age, Consensus, Permission};
use vstd::prelude::*;

verus! {

#[derive(Clone, Copy, Debug, PartialEq, Eq)]
pub struct ExecuteProposalInstructionEvent {
    pub proposal: Pubkey,
    pub caller: Pubkey,
}

/// Why the call of an instruction is not handed out for dispatch, if it is
/// not: the first guard that fails, in the order permission, execution of the
/// proposal, consent, time, execution of the instruction, its turn, live
/// accounts. The clock is read only for a proposal that has consent.
pub open spec fn rejection(
    dao: Dao,
    proposal: Proposal,
    instruction: ProposalInstruction,
    caller: Pubkey,
    invoked_program: Pubkey,
    remaining_accounts: Seq<AccountInfo>,
    clock: Option<i64>,
) -> Option<ErrorCode> {
    if !dao.may_execute(caller) {
        Some(ErrorCode::NoPermission)
    } else if proposal.executed {
        Some(ErrorCode::ExecutedProposal)
    } else if !proposal.spec_is_consented() {
        Some(ErrorCode::NotConsentedProposal)
    } else if clock is None {
        Some(ErrorCode::InvalidCurrentDate)
    } else if !proposal.ended_at(clock->0) {
        Some(ErrorCode::NotConsentedProposal)
    } else if instruction.executed {
        Some(ErrorCode::ExecutedProposal)
    } else if instruction.index != proposal.total_executed {
        Some(ErrorCode::InvalidProposalIdx)
    } else {
        mismatch(
            instruction.invoked_program,
            instruction.accounts@,
            invoked_program,
            remaining_accounts,
        )
    }
}

/// Why the execution of an instruction is not written down, if it is not: the
/// proposal or the instruction is executed already, the instruction is not the
/// next in line, or the counter of executed instructions is full.
pub open spec fn commit_rejection(proposal: Proposal, instruction: ProposalInstruction) -> Option<
    ErrorCode,
> {
    if proposal.executed {
        Some(ErrorCode::ExecutedProposal)
    } else if instruction.executed {
        Some(ErrorCode::ExecutedProposal)
    } else if instruction.index != proposal.total_executed {
        Some(ErrorCode::InvalidProposalIdx)
    } else if proposal.total_executed == u8::MAX {
        Some(ErrorCode::Overflow)
    } else {
        None
    }
}

/// The proposal after one more of its instructions was executed: it is executed
/// itself once all of them are.
pub open spec fn advanced(proposal: Proposal) -> Proposal {
    Proposal {
        total_executed: (proposal.total_executed + 1) as u8,
        executed: proposal.total_executed + 1 == proposal.total_instruction,
        ..proposal
    }
}

/// Decides whether `caller` may have the call of `instruction` dispatched now,
/// with `invoked_program` and `remaining_accounts` as the host holds them live,
/// and puts the call together. Instructions are executed one by one in the
/// order of their indices.
///
/// The result is the call to dispatch under the DAO's signing authority. No
/// record changes here: the execution is written down by `commit`, once the
/// dispatch has succeeded.
pub fn exec(
    dao: &Dao,
    proposal: &Proposal,
    instruction: &ProposalInstruction,
    caller: Pubkey,
    invoked_program: Pubkey,
    remaining_accounts: &Vec<AccountInfo>,
    clock: Option<i64>,
) -> (prepared: Result<Instruction, ErrorCode>)
    ensures
        match prepared {
            Ok(call) => {
                &&& rejection(
                    *dao,
                    *proposal,
                    *instruction,
                    caller,
                    invoked_program,
                    remaining_accounts@,
                    clock,
                ) is None
                &&& is_call_of(
                    call,
                    instruction.invoked_program,
                    instruction.accounts@,
                    instruction.data@,
                )
            },
            Err(error) => rejection(
                *dao,
                *proposal,
                *instruction,
                caller,
                invoked_program,
                remaining_accounts@,
                clock,
            ) == Some(error),
        },
{
    if !dao.is_authorized_to_execute(caller) {
        return Err(ErrorCode::NoPermission);
    }
    if proposal.is_executed() {
        return Err(ErrorCode::ExecutedProposal);
    }
    if !proposal.is_consented() {
        return Err(ErrorCode::NotConsentedProposal);
    }
    let now = match clock {
        Some(now) => now,
        None => return Err(ErrorCode::InvalidCurrentDate),
    };
    if !proposal.is_ended(now) {
        return Err(ErrorCode::NotConsentedProposal);
    }
    if instruction.is_executed() {
        return Err(ErrorCode::ExecutedProposal);
    }
    if instruction.index != proposal.total_executed {
        return Err(ErrorCode::InvalidProposalIdx);
    }
    check(
        &instruction.invoked_program,
        &instruction.accounts,
        &invoked_program,
        remaining_accounts,
    )?;
    Ok(build(&instruction.invoked_program, &instruction.accounts, &instruction.data))
}

/// Writes down that the call of `instruction` was dispatched: the instruction
/// is executed, the proposal counts it, and the proposal is executed itself
/// once it has counted all its instructions. On a refusal both records are
/// unchanged.
pub fn commit(
    proposal: &mut Proposal,
    instruction: &mut ProposalInstruction,
    proposal_key: Pubkey,
    caller: Pubkey,
) -> (committed: Result<ExecuteProposalInstructionEvent, ErrorCode>)
    ensures
        match committed {
            Ok(event) => {
                &&& commit_rejection(*old(proposal), *old(instruction)) is None
                &&& *final(instruction) == (ProposalInstruction {
                    executed: true,
                    ..*old(instruction)
                })
                &&& *final(proposal) == advanced(*old(proposal))
                &&& event == (ExecuteProposalInstructionEvent { proposal: proposal_key, caller })
            },
            Err(error) => {
                &&& commit_rejection(*old(proposal), *old(instruction)) == Some(error)
                &&& *final(proposal) == *old(proposal)
                &&& *final(instruction) == *old(instruction)
            },
        },
{
    if proposal.is_executed() || instruction.is_executed() {
        return Err(ErrorCode::ExecutedProposal);
    }
    if instruction.index != proposal.total_executed {
        return Err(ErrorCode::InvalidProposalIdx);
    }
    let total_executed = match proposal.total_executed.checked_add(1) {
        Some(total) => total,
        None => return Err(ErrorCode::Overflow),
    };
    instruction.executed = true;
    proposal.total_executed = total_executed;
    if proposal.total_executed == proposal.total_instruction {
        proposal.executed = true
    }
    Ok(ExecuteProposalInstructionEvent { proposal: proposal_key, caller })
}

/// An instruction is executed once. After its execution was written down, no
/// call is handed out for it again, whoever asks, whenever, and with whatever
/// accounts, and no second execution is written down. Where nothing else
/// stands in the way, the attempt is told that the instruction is executed.
pub proof fn lemma_executed_only_once(
    before: Proposal,
    instruction: ProposalInstruction,
    dao: Dao,
    caller: Pubkey,
    invoked_program: Pubkey,
    remaining_accounts: Seq<AccountInfo>,
    clock: Option<i64>,
)
    requires
        commit_rejection(before, instruction) is None,
    ensures
        ({
            let after = advanced(before);
            let done = ProposalInstruction { executed: true, ..instruction };
            let again = rejection(
                dao,
                after,
                done,
                caller,
                invoked_program,
                remaining_accounts,
                clock,
            );
            &&& again is Some
            &&& again != Some(ErrorCode::InvalidProposalIdx)
            &&& again != Some(ErrorCode::InvalidDataLength)
            &&& again != Some(ErrorCode::InconsistentProposal)
            &&& dao.may_execute(caller) && after.spec_is_consented() && clock is Some
                && after.ended_at(clock->0) ==> again == Some(ErrorCode::ExecutedProposal)
            &&& dao.may_execute(caller) && after.executed ==> again == Some(
                ErrorCode::ExecutedProposal,
            )
            &&& commit_rejection(after, done) == Some(ErrorCode::ExecutedProposal)
        }),
{
}

/// Instructions are executed in the order of their indices, without a gap: an
/// execution is written down only for the instruction whose index is the
/// number of instructions executed so far, and that number then goes up by
/// one. The proposal becomes executed with the last of its instructions and not
/// before, and it never counts more executions than instructions.
pub proof fn lemma_executed_in_order(before: Proposal, instruction: ProposalInstruction)
    requires
        commit_rejection(before, instruction) is None,
    ensures
        instruction.index == before.total_executed,
        advanced(before).total_executed == instruction.index + 1,
        advanced(before).executed <==> advanced(before).total_executed
            == before.total_instruction,
        before.well_formed() && instruction.index < before.total_instruction ==> advanced(
            before,
        ).well_formed(),
        advanced(before).spec_is_consented() == before.spec_is_consented(),
{
}

/// An instruction whose turn has not come is refused for its index, where
/// nothing else stands in the way, and so is one whose turn has passed without
/// its being executed.
pub proof fn lemma_out_of_turn_is_refused(
    dao: Dao,
    proposal: Proposal,
    instruction: ProposalInstruction,
    caller: Pubkey,
    invoked_program: Pubkey,
    remaining_accounts: Seq<AccountInfo>,
    clock: Option<i64>,
)
    requires
        instruction.index != proposal.total_executed,
        dao.may_execute(caller),
        !proposal.executed,
        proposal.spec_is_consented(),
        clock is Some,
        proposal.ended_at(clock->0),
        !instruction.executed,
    ensures
        rejection(dao, proposal, instruction, caller, invoked_program, remaining_accounts, clock)
            == Some(ErrorCode::InvalidProposalIdx),
        commit_rejection(proposal, instruction) == Some(ErrorCode::InvalidProposalIdx),
{
}

/// Where a call was handed out for live accounts, none is handed out once a
/// single one of these accounts is replaced by one that differs from it in its
/// key or in a flag: the attempt is refused as inconsistent. Since handing out
/// a call changes no record, the proposal and the instruction stay unexecuted.
pub proof fn lemma_tampering_is_refused(
    dao: Dao,
    proposal: Proposal,
    instruction: ProposalInstruction,
    caller: Pubkey,
    invoked_program: Pubkey,
    remaining_accounts: Seq<AccountInfo>,
    clock: Option<i64>,
    position: int,
    forged: AccountInfo,
)
    requires
        rejection(dao, proposal, instruction, caller, invoked_program, remaining_accounts, clock)
            is None,
        0 <= position < remaining_accounts.len(),
        forged != remaining_accounts[position],
    ensures
        rejection(
            dao,
            proposal,
            instruction,
            caller,
            invoked_program,
            remaining_accounts.update(position, forged),
            clock,
        ) == Some(ErrorCode::InconsistentProposal),
{
    lemma_tampered_account_is_found(
        instruction.invoked_program,
        instruction.accounts@,
        invoked_program,
        remaining_accounts,
        position,
        forged,
    );
}

} // verus!
