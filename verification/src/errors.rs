//! Why an operation was refused.

use vstd::prelude::*;

verus! {

#[derive(Clone, Copy, Debug, PartialEq, Eq, Structural)]
pub enum ErrorCode {
    /// A checked addition, subtraction, multiplication or conversion left its range.
    Overflow,
    /// Lists that must run in parallel differ in length.
    InvalidDataLength,
    /// The live accounts differ from those the proposal declared.
    InconsistentProposal,
    /// The net votes do not exceed the quorum, or the vote is still running.
    NotConsentedProposal,
    NotStartedProposal,
    NotEndedProposal,
    EndedProposal,
    ExecutedProposal,
    NoPermission,
    /// The host could not derive the authority that signs for the escrow.
    NoBump,
    /// The host could not read its clock.
    InvalidCurrentDate,
    InvalidStartDate,
    InvalidEndDate,
    StartedProposal,
    /// The instruction is not the next one in line.
    InvalidProposalIdx,
    /// The token does not belong to the collection that the DAO counts.
    InvalidNftCollection,
}

impl ErrorCode {
    /// The sentence shown to the user.
    pub open spec fn spec_message(self) -> Seq<char> {
        match self {
            ErrorCode::Overflow => "Operation overflowed"@,
            ErrorCode::InvalidDataLength => "Invalid accounts length"@,
            ErrorCode::InconsistentProposal => "Inconsistent proposal's accounts configuration"@,
            ErrorCode::NotConsentedProposal => "The community isn't consenting on the proposal yet"@,
            ErrorCode::NotStartedProposal => "The proposal isn't started yet"@,
            ErrorCode::NotEndedProposal => "The proposal isn't ended yet"@,
            ErrorCode::EndedProposal => "The proposal had been ended"@,
            ErrorCode::ExecutedProposal => "The proposal had been executed"@,
            ErrorCode::NoPermission => "No permission"@,
            ErrorCode::NoBump => "Cannot derive the program address"@,
            ErrorCode::InvalidCurrentDate => "Cannot get current date"@,
            ErrorCode::InvalidStartDate => "Start date need to be greater than or equal to zero"@,
            ErrorCode::InvalidEndDate => "End date need to be greater than start date and current date"@,
            ErrorCode::StartedProposal => "The proposal had been started"@,
            ErrorCode::InvalidProposalIdx => "The instruction isn't the next one to execute"@,
            ErrorCode::InvalidNftCollection => "The NFT doesn't belong to the DAO's collection"@,
        }
    }

    pub fn message(&self) -> (text: &'static str)
        ensures
            text@ == self.spec_message(),
    {
        match self {
            ErrorCode::Overflow => "Operation overflowed",
            ErrorCode::InvalidDataLength => "Invalid accounts length",
            ErrorCode::InconsistentProposal => "Inconsistent proposal's accounts configuration",
            ErrorCode::NotConsentedProposal => "The community isn't consenting on the proposal yet",
            ErrorCode::NotStartedProposal => "The proposal isn't started yet",
            ErrorCode::NotEndedProposal => "The proposal isn't ended yet",
            ErrorCode::EndedProposal => "The proposal had been ended",
            ErrorCode::ExecutedProposal => "The proposal had been executed",
            ErrorCode::NoPermission => "No permission",
            ErrorCode::NoBump => "Cannot derive the program address",
            ErrorCode::InvalidCurrentDate => "Cannot get current date",
            ErrorCode::InvalidStartDate => "Start date need to be greater than or equal to zero",
            ErrorCode::InvalidEndDate => "End date need to be greater than start date and current date",
            ErrorCode::StartedProposal => "The proposal had been started",
            ErrorCode::InvalidProposalIdx => "The instruction isn't the next one to execute",
            ErrorCode::InvalidNftCollection => "The NFT doesn't belong to the DAO's collection",
        }
    }
}

} // verus!
