//! What a DAO allows, how a proposal counts votes, and where it stands in time.

use crate::pubkey::Pubkey;
use crate::schema::receipt::{Receipt, ReceiptAction};
use vstd::prelude::*;

verus! {

/// Who may raise a proposal and who may execute one.
pub trait Permission {
    /// Whether `caller` may raise a proposal.
    spec fn may_propose(&self, caller: Pubkey) -> bool;

    /// Whether `caller` may execute a proposal.
    spec fn may_execute(&self, caller: Pubkey) -> bool;

    fn is_authorized_to_propose(&self, caller: Pubkey) -> (allowed: bool)
        ensures
            allowed == self.may_propose(caller),
    ;

    fn is_authorized_to_execute(&self, caller: Pubkey) -> (allowed: bool)
        ensures
            allowed == self.may_execute(caller),
    ;
}

/// How votes are weighed, added to and taken from the tallies, and when the
/// tallies amount to consent.
pub trait Consensus: Sized {
    /// The power of `amount` tokens locked at `locked_date` and asked back at
    /// `unlocked_date`; nothing where a step of the computation leaves its range.
    spec fn spec_power(&self, amount: u64, unlocked_date: i64, locked_date: i64) -> Option<u128>;

    /// The tally of one side.
    spec fn tally(&self, action: ReceiptAction) -> u128;

    /// The state and the receipt after a vote of `amount` tokens on the side
    /// `action`; nothing where the vote cannot be counted.
    spec fn spec_vote(
        self,
        action: ReceiptAction,
        amount: u64,
        unlocked_date: i64,
        locked_date: i64,
        receipt: Receipt,
    ) -> Option<(Self, Receipt)>;

    /// The power that `amount` tokens of `receipt` are withdrawn with; nothing
    /// where they cannot be withdrawn.
    spec fn withdrawable(&self, amount: u64, receipt: Receipt) -> Option<u128>;

    /// The state and the receipt after `amount` tokens of the receipt were taken
    /// out of the count; nothing where they cannot be withdrawn.
    spec fn spec_void(self, amount: u64, receipt: Receipt) -> Option<(Self, Receipt)>;

    /// Whether the tallies amount to consent.
    spec fn spec_is_consented(&self) -> bool;

    fn calculate_my_power(&self, amount: u64, unlocked_date: i64, locked_date: i64) -> (power:
        Option<u128>)
        ensures
            power == self.spec_power(amount, unlocked_date, locked_date),
    ;

    /// Counts `amount` tokens in favour and fills the receipt. Gives the power
    /// counted and the new tally, or nothing, with both records untouched.
    fn vote_for(
        &mut self,
        amount: u64,
        unlocked_date: i64,
        locked_date: i64,
        receipt: &mut Receipt,
    ) -> (counted: Option<(u128, u128)>)
        ensures
            match (*old(self)).spec_vote(
                ReceiptAction::VoteFor,
                amount,
                unlocked_date,
                locked_date,
                *old(receipt),
            ) {
                Some((after, filled)) => {
                    &&& counted == Some((filled.power, after.tally(ReceiptAction::VoteFor)))
                    &&& *final(self) == after
                    &&& *final(receipt) == filled
                },
                None => {
                    &&& counted is None
                    &&& *final(self) == *old(self)
                    &&& *final(receipt) == *old(receipt)
                },
            },
    ;

    /// As `vote_for`, for a vote against.
    fn vote_against(
        &mut self,
        amount: u64,
        unlocked_date: i64,
        locked_date: i64,
        receipt: &mut Receipt,
    ) -> (counted: Option<(u128, u128)>)
        ensures
            match (*old(self)).spec_vote(
                ReceiptAction::VoteAgainst,
                amount,
                unlocked_date,
                locked_date,
                *old(receipt),
            ) {
                Some((after, filled)) => {
                    &&& counted == Some((filled.power, after.tally(ReceiptAction::VoteAgainst)))
                    &&& *final(self) == after
                    &&& *final(receipt) == filled
                },
                None => {
                    &&& counted is None
                    &&& *final(self) == *old(self)
                    &&& *final(receipt) == *old(receipt)
                },
            },
    ;

    /// Takes `amount` tokens of a receipt back out of the count. Gives the power
    /// withdrawn and the new tally, or nothing, with both records untouched.
    fn void(&mut self, amount: u64, receipt: &mut Receipt) -> (withdrawn: Option<(u128, u128)>)
        ensures
            match (*old(self)).spec_void(amount, *old(receipt)) {
                Some((after, rest)) => {
                    &&& old(self).withdrawable(amount, *old(receipt)) matches Some(power)
                    &&& withdrawn == Some((power, after.tally(old(receipt).action)))
                    &&& *final(self) == after
                    &&& *final(receipt) == rest
                },
                None => {
                    &&& withdrawn is None
                    &&& *final(self) == *old(self)
                    &&& *final(receipt) == *old(receipt)
                },
            },
    ;

    fn is_consented(&self) -> (consented: bool)
        ensures
            consented == self.spec_is_consented(),
    ;
}

/// Where a proposal stands at the time `now`.
pub trait Age {
    /// The vote has started by the time `now`.
    spec fn started_at(&self, now: i64) -> bool;

    /// The vote has ended by the time `now`.
    spec fn ended_at(&self, now: i64) -> bool;

    /// The proposal has been executed.
    spec fn spec_is_executed(&self) -> bool;

    fn is_started(&self, now: i64) -> (started: bool)
        ensures
            started == self.started_at(now),
    ;

    fn is_ended(&self, now: i64) -> (ended: bool)
        ensures
            ended == self.ended_at(now),
    ;

    fn is_executed(&self) -> (executed: bool)
        ensures
            executed == self.spec_is_executed(),
    ;
}

} // verus!
