use crate::errors::ErrorCode;
use crate::invoke::{copy_of, copy_of_accounts, declare, declared_from, same_lengths};
use crate::numeric::{usize_to_u64, usize_to_u8};
use crate::pubkey::Pubkey;
use crate::schema::dao::Dao;
use crate::schema::proposal::{InvokedAccount, Proposal};
use crate::schema::proposal_instruction::ProposalInstruction;
use crate::traits::{Age, Permission};
use vstd::prelude::*;

verus! {

#[derive(Clone, Debug, PartialEq, Eq)]
pub struct InitializeProposalInstructionEvent {
    pub proposal: Pubkey,
    pub proposal_instruction: Pubkey,
    pub dao: Pubkey,
    pub caller: Pubkey,
    pub invoked_program: Pubkey,
    pub data: Vec<u8>,
    pub accounts: Vec<InvokedAccount>,
}

/// Why an instruction is not recorded, if it is not: the first guard that
/// fails, in the order permission, shape of the call, time, counters.
pub open spec fn rejection(
    dao: Dao,
    proposal: Proposal,
    caller: Pubkey,
    pubkeys: Seq<Pubkey>,
    is_signers: Seq<bool>,
    is_writables: Seq<bool>,
    is_masters: Seq<bool>,
    clock: Option<i64>,
) -> Option<ErrorCode> {
    if !dao.may_propose(caller) {
        Some(ErrorCode::NoPermission)
    } else if !same_lengths(pubkeys, is_signers, is_writables, is_masters) {
        Some(ErrorCode::InvalidDataLength)
    } else if clock is None {
        Some(ErrorCode::InvalidCurrentDate)
    } else if proposal.started_at(clock->0) {
        Some(ErrorCode::StartedProposal)
    } else if pubkeys.len() > u8::MAX || proposal.total_instruction == u8::MAX {
        Some(ErrorCode::Overflow)
    } else {
        None
    }
}

/// The instruction recorded for `proposal`, stored under `proposal_key`: it
/// takes the next place in the order of execution and holds the call as given.
pub open spec fn is_recorded(
    instruction: ProposalInstruction,
    proposal: Proposal,
    proposal_key: Pubkey,
    invoked_program: Pubkey,
    data: Seq<u8>,
    accounts: Seq<InvokedAccount>,
    tx_idx: u8,
) -> bool {
    &&& instruction.proposal == proposal_key
    &&& instruction.index == proposal.total_instruction
    &&& instruction.tx_index == tx_idx
    &&& !instruction.executed
    &&& instruction.data_len == data.len()
    &&& instruction.data@ == data
    &&& instruction.accounts_len == accounts.len()
    &&& instruction.accounts@ == accounts
    &&& instruction.invoked_program == invoked_program
}

/// Records one more call for a proposal that is executed step by step. Calls
/// can be added until the vote starts, by whoever may propose in the DAO.
///
/// On success the proposal counts one instruction more, and the result holds
/// the new instruction and the event to publish. On a refusal the proposal is
/// unchanged.
pub fn exec(
    dao: &Dao,
    proposal: &mut Proposal,
    proposal_key: Pubkey,
    proposal_instruction_key: Pubkey,
    caller: Pubkey,
    invoked_program: Pubkey,
    tx_idx: u8,
    data: Vec<u8>,
    pubkeys: Vec<Pubkey>,
    is_signers: Vec<bool>,
    is_writables: Vec<bool>,
    is_masters: Vec<bool>,
    clock: Option<i64>,
) -> (recorded: Result<(ProposalInstruction, InitializeProposalInstructionEvent), ErrorCode>)
    ensures
        match recorded {
            Ok((instruction, event)) => {
                &&& rejection(
                    *dao,
                    *old(proposal),
                    caller,
                    pubkeys@,
                    is_signers@,
                    is_writables@,
                    is_masters@,
                    clock,
                ) is None
                &&& is_recorded(
                    instruction,
                    *old(proposal),
                    proposal_key,
                    invoked_program,
                    data@,
                    declared_from(pubkeys@, is_signers@, is_writables@, is_masters@),
                    tx_idx,
                )
                &&& instruction.well_formed()
                &&& old(proposal).well_formed() ==> final(proposal).well_formed()
                &&& *final(proposal) == (Proposal {
                    total_instruction: (old(proposal).total_instruction + 1) as u8,
                    ..*old(proposal)
                })
                &&& event.proposal == proposal_key
                &&& event.proposal_instruction == proposal_instruction_key
                &&& event.dao == old(proposal).dao
                &&& event.caller == old(proposal).creator
                &&& event.invoked_program == invoked_program
                &&& event.data@ == data@
                &&& event.accounts@ == instruction.accounts@
            },
            Err(error) => {
                &&& rejection(
                    *dao,
                    *old(proposal),
                    caller,
                    pubkeys@,
                    is_signers@,
                    is_writables@,
                    is_masters@,
                    clock,
                ) == Some(error)
                &&& *final(proposal) == *old(proposal)
            },
        },
{
    if !dao.is_authorized_to_propose(caller) {
        return Err(ErrorCode::NoPermission);
    }
    let accounts = declare(&pubkeys, &is_signers, &is_writables, &is_masters)?;
    let now = match clock {
        Some(now) => now,
        None => return Err(ErrorCode::InvalidCurrentDate),
    };
    if proposal.is_started(now) {
        return Err(ErrorCode::StartedProposal);
    }
    let data_len = match usize_to_u64(data.len()) {
        Some(len) => len,
        None => return Err(ErrorCode::Overflow),
    };
    let accounts_len = match usize_to_u8(accounts.len()) {
        Some(len) => len,
        None => return Err(ErrorCode::Overflow),
    };
    let total_instruction = match proposal.total_instruction.checked_add(1) {
        Some(total) => total,
        None => return Err(ErrorCode::Overflow),
    };
    let event = InitializeProposalInstructionEvent {
        proposal: proposal_key,
        proposal_instruction: proposal_instruction_key,
        dao: proposal.dao,
        caller: proposal.creator,
        invoked_program,
        data: copy_of(&data),
        accounts: copy_of_accounts(&accounts),
    };
    let instruction = ProposalInstruction {
        proposal: proposal_key,
        index: proposal.total_instruction,
        tx_index: tx_idx,
        executed: false,
        data_len,
        data,
        accounts_len,
        accounts,
        invoked_program,
    };
    proposal.total_instruction = total_instruction;
    Ok((instruction, event))
}

} // verus!
