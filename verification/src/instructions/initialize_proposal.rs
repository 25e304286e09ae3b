use crate::charges::Charges;
use crate::errors::ErrorCode;
use crate::invoke::{declare, declared_from, same_lengths};
use crate::numeric::{usize_to_u64, usize_to_u8};
use crate::pubkey::Pubkey;
use crate::schema::dao::Dao;
use crate::schema::proposal::{ConsensusMechanism, ConsensusQuorum, InvokedAccount, Proposal};
use crate::traits::Permission;
use vstd::prelude::*;

verus! {

/// The shortest vote, in seconds.
pub const ONE_DAY: i64 = 1;

/// The longest vote, in seconds: ninety days.
pub const ONE_QUATER: i64 = 7776000;

#[derive(Clone, Copy, Debug, PartialEq, Eq)]
pub struct InitializeProposalEvent {
    pub proposal: Pubkey,
    pub dao: Pubkey,
    pub caller: Pubkey,
    pub quorum: ConsensusQuorum,
}

/// Why the dates of a vote are refused, if they are. The vote must not start
/// before the clock's first reading, must end after it starts and after the
/// clock's second reading, and must last no less than the shortest and no more
/// than the longest vote. The second reading is taken only for a vote that ends
/// after it starts.
pub open spec fn schedule_rejection(
    start_date: i64,
    end_date: i64,
    clock_at_start_check: Option<i64>,
    clock_at_end_check: Option<i64>,
) -> Option<ErrorCode> {
    if clock_at_start_check is None {
        Some(ErrorCode::InvalidCurrentDate)
    } else if start_date < clock_at_start_check->0 {
        Some(ErrorCode::InvalidStartDate)
    } else if end_date <= start_date {
        Some(ErrorCode::InvalidEndDate)
    } else if clock_at_end_check is None {
        Some(ErrorCode::InvalidCurrentDate)
    } else if end_date <= clock_at_end_check->0 {
        Some(ErrorCode::InvalidEndDate)
    } else if end_date - start_date < ONE_DAY || end_date - start_date > ONE_QUATER {
        Some(ErrorCode::InvalidEndDate)
    } else {
        None
    }
}

/// Why a proposal is not raised, if it is not: the first guard that fails, in
/// the order permission, dates, shape of the recorded call, counters.
pub open spec fn rejection(
    dao: Dao,
    caller: Pubkey,
    data: Seq<u8>,
    pubkeys: Seq<Pubkey>,
    is_signers: Seq<bool>,
    is_writables: Seq<bool>,
    is_masters: Seq<bool>,
    start_date: i64,
    end_date: i64,
    clock_at_start_check: Option<i64>,
    clock_at_end_check: Option<i64>,
) -> Option<ErrorCode> {
    if !dao.may_propose(caller) {
        Some(ErrorCode::NoPermission)
    } else if schedule_rejection(start_date, end_date, clock_at_start_check, clock_at_end_check)
        is Some {
        schedule_rejection(start_date, end_date, clock_at_start_check, clock_at_end_check)
    } else if !same_lengths(pubkeys, is_signers, is_writables, is_masters) {
        Some(ErrorCode::InvalidDataLength)
    } else if pubkeys.len() > u8::MAX || dao.nonce == u64::MAX {
        Some(ErrorCode::Overflow)
    } else {
        None
    }
}

/// The proposal that `caller` raises in `dao`, stored under `dao_key`: it takes
/// the DAO's next index and its regime and supply of the moment, holds the call
/// and the dates as given, and starts unexecuted with empty tallies and no
/// instruction.
pub open spec fn is_raised(
    proposal: Proposal,
    dao: Dao,
    dao_key: Pubkey,
    caller: Pubkey,
    invoked_program: Pubkey,
    data: Seq<u8>,
    accounts: Seq<InvokedAccount>,
    consensus_mechanism: ConsensusMechanism,
    consensus_quorum: ConsensusQuorum,
    start_date: i64,
    end_date: i64,
    metadata: [u8; 32],
) -> bool {
    &&& proposal.index == dao.nonce
    &&& proposal.creator == caller
    &&& proposal.dao == dao_key
    &&& proposal.invoked_program == invoked_program
    &&& proposal.data_len == data.len()
    &&& proposal.data@ == data
    &&& proposal.accounts_len == accounts.len()
    &&& proposal.accounts@ == accounts
    &&& proposal.regime == dao.regime
    &&& proposal.consensus_mechanism == consensus_mechanism
    &&& proposal.consensus_quorum == consensus_quorum
    &&& !proposal.executed
    &&& proposal.voting_for_power == 0
    &&& proposal.voting_against_power == 0
    &&& proposal.supply == dao.supply
    &&& proposal.start_date == start_date
    &&& proposal.end_date == end_date
    &&& proposal.metadata == metadata
    &&& proposal.total_instruction == 0
    &&& proposal.total_executed == 0
}

/// A vote that does not end after it starts is never raised. Whoever may
/// propose, and whose host could read its clock, is refused for the start or the
/// end date.
pub proof fn lemma_inverted_dates_are_refused(
    dao: Dao,
    caller: Pubkey,
    data: Seq<u8>,
    pubkeys: Seq<Pubkey>,
    is_signers: Seq<bool>,
    is_writables: Seq<bool>,
    is_masters: Seq<bool>,
    start_date: i64,
    end_date: i64,
    clock_at_start_check: Option<i64>,
    clock_at_end_check: Option<i64>,
)
    requires
        end_date <= start_date,
    ensures
        ({
            let refusal = rejection(
                dao,
                caller,
                data,
                pubkeys,
                is_signers,
                is_writables,
                is_masters,
                start_date,
                end_date,
                clock_at_start_check,
                clock_at_end_check,
            );
            &&& refusal is Some
            &&& dao.may_propose(caller) && clock_at_start_check is Some ==> refusal == Some(
                ErrorCode::InvalidStartDate,
            ) || refusal == Some(ErrorCode::InvalidEndDate)
        }),
{
}

/// A vote that is raised starts no earlier than the clock's first reading, ends
/// after the second, and lasts at least the shortest and at most the longest
/// vote.
pub proof fn lemma_accepted_dates_are_sound(
    start_date: i64,
    end_date: i64,
    clock_at_start_check: Option<i64>,
    clock_at_end_check: Option<i64>,
)
    requires
        schedule_rejection(start_date, end_date, clock_at_start_check, clock_at_end_check) is None,
    ensures
        clock_at_start_check is Some && clock_at_start_check->0 <= start_date,
        clock_at_end_check is Some && clock_at_end_check->0 < end_date,
        start_date < end_date,
        ONE_DAY <= end_date - start_date <= ONE_QUATER,
{
}

/// Checks the dates of a vote against two readings of the clock.
pub fn check_schedule(
    start_date: i64,
    end_date: i64,
    clock_at_start_check: Option<i64>,
    clock_at_end_check: Option<i64>,
) -> (checked: Result<(), ErrorCode>)
    ensures
        match schedule_rejection(start_date, end_date, clock_at_start_check, clock_at_end_check) {
            Some(error) => checked == Err::<(), ErrorCode>(error),
            None => checked is Ok,
        },
{
    let now = match clock_at_start_check {
        Some(now) => now,
        None => return Err(ErrorCode::InvalidCurrentDate),
    };
    if start_date < now {
        return Err(ErrorCode::InvalidStartDate);
    }
    if end_date <= start_date {
        return Err(ErrorCode::InvalidEndDate);
    }
    let now = match clock_at_end_check {
        Some(now) => now,
        None => return Err(ErrorCode::InvalidCurrentDate),
    };
    if end_date <= now {
        return Err(ErrorCode::InvalidEndDate);
    }
    let duration = match end_date.checked_sub(start_date) {
        Some(duration) => duration,
        None => return Err(ErrorCode::InvalidEndDate),
    };
    if duration < ONE_DAY || duration > ONE_QUATER {
        return Err(ErrorCode::InvalidEndDate);
    }
    Ok(())
}

/// Raises a proposal in `dao`, to be stored under `proposal_key`.
///
/// On success the DAO's counter has moved on by one, and the result holds the
/// new proposal, the event to publish and the payments to take from the
/// caller. On a refusal the DAO is unchanged and nothing is to be paid.
pub fn exec(
    dao: &mut Dao,
    dao_key: Pubkey,
    proposal_key: Pubkey,
    caller: Pubkey,
    invoked_program: Pubkey,
    data: Vec<u8>,
    pubkeys: Vec<Pubkey>,
    is_signers: Vec<bool>,
    is_writables: Vec<bool>,
    is_masters: Vec<bool>,
    consensus_mechanism: ConsensusMechanism,
    consensus_quorum: ConsensusQuorum,
    start_date: i64,
    end_date: i64,
    metadata: [u8; 32],
    tax: u64,
    revenue: u64,
    clock_at_start_check: Option<i64>,
    clock_at_end_check: Option<i64>,
) -> (raised: Result<(Proposal, InitializeProposalEvent, Charges), ErrorCode>)
    ensures
        match raised {
            Ok((proposal, event, charges)) => {
                &&& rejection(
                    *old(dao),
                    caller,
                    data@,
                    pubkeys@,
                    is_signers@,
                    is_writables@,
                    is_masters@,
                    start_date,
                    end_date,
                    clock_at_start_check,
                    clock_at_end_check,
                ) is None
                &&& is_raised(
                    proposal,
                    *old(dao),
                    dao_key,
                    caller,
                    invoked_program,
                    data@,
                    declared_from(pubkeys@, is_signers@, is_writables@, is_masters@),
                    consensus_mechanism,
                    consensus_quorum,
                    start_date,
                    end_date,
                    metadata,
                )
                &&& proposal.well_formed()
                &&& *final(dao) == (Dao { nonce: (old(dao).nonce + 1) as u64, ..*old(dao) })
                &&& event == (InitializeProposalEvent {
                    proposal: proposal_key,
                    dao: dao_key,
                    caller,
                    quorum: consensus_quorum,
                })
                &&& charges == Charges::due(tax, revenue)
            },
            Err(error) => {
                &&& rejection(
                    *old(dao),
                    caller,
                    data@,
                    pubkeys@,
                    is_signers@,
                    is_writables@,
                    is_masters@,
                    start_date,
                    end_date,
                    clock_at_start_check,
                    clock_at_end_check,
                ) == Some(error)
                &&& *final(dao) == *old(dao)
            },
        },
{
    if !dao.is_authorized_to_propose(caller) {
        return Err(ErrorCode::NoPermission);
    }
    check_schedule(start_date, end_date, clock_at_start_check, clock_at_end_check)?;
    let accounts = declare(&pubkeys, &is_signers, &is_writables, &is_masters)?;
    let data_len = match usize_to_u64(data.len()) {
        Some(len) => len,
        None => return Err(ErrorCode::Overflow),
    };
    let accounts_len = match usize_to_u8(accounts.len()) {
        Some(len) => len,
        None => return Err(ErrorCode::Overflow),
    };
    let nonce = match dao.nonce.checked_add(1) {
        Some(nonce) => nonce,
        None => return Err(ErrorCode::Overflow),
    };
    let proposal = Proposal {
        index: dao.nonce,
        creator: caller,
        dao: dao_key,
        invoked_program,
        data_len,
        data,
        accounts_len,
        accounts,
        regime: dao.regime,
        consensus_mechanism,
        consensus_quorum,
        executed: false,
        voting_for_power: 0,
        voting_against_power: 0,
        supply: dao.supply,
        start_date,
        end_date,
        metadata,
        total_instruction: 0,
        total_executed: 0,
    };
    dao.nonce = nonce;
    Ok(
        (
            proposal,
            InitializeProposalEvent {
                proposal: proposal_key,
                dao: dao_key,
                caller,
                quorum: consensus_quorum,
            },
            Charges::new(tax, revenue),
        ),
    )
}

} // verus!
