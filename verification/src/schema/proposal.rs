use crate::constants::{
    BOOL_SIZE, DISCRIMINATOR_SIZE, I64_SIZE, PUBKEY_SIZE, U128_SIZE, U64_SIZE, U8_SIZE,
};
use crate::numeric::{i64_to_u128, u64_to_u128};
use crate::pubkey::Pubkey;
use crate::schema::dao::DaoRegime;
use crate::schema::receipt::{Receipt, ReceiptAction};
use crate::traits::{Age, Consensus};
use vstd::prelude::*;

verus! {

/// How staked tokens turn into voting power.
#[derive(Clone, Copy, Debug, PartialEq, Eq, Structural)]
pub enum ConsensusMechanism {
    /// Each token counts once, however long it stays.
    StakedTokenCounter,
    /// Each token counts once for every second it is committed for.
    LockedTokenCounter,
}

impl Default for ConsensusMechanism {
    fn default() -> (mechanism: Self)
        ensures
            mechanism == ConsensusMechanism::StakedTokenCounter,
    {
        ConsensusMechanism::StakedTokenCounter
    }
}

/// The share of the total power that the net votes must exceed.
#[derive(Clone, Copy, Debug, PartialEq, Eq, Structural)]
pub enum ConsensusQuorum {
    OneThird,
    Half,
    TwoThird,
}

impl Default for ConsensusQuorum {
    fn default() -> (quorum: Self)
        ensures
            quorum == ConsensusQuorum::Half,
    {
        ConsensusQuorum::Half
    }
}

/// An account of the recorded call, as the proposal declares it.
#[derive(Clone, Copy, Debug, PartialEq, Eq)]
pub struct InvokedAccount {
    pub pubkey: Pubkey,
    /// Whether the account signs the dispatched call.
    pub is_signer: bool,
    pub is_writable: bool,
    /// Whether the account is the DAO's own signing authority, which signs
    /// only through the dispatch and never on the way in.
    pub is_master: bool,
}

impl InvokedAccount {
    /// Whether the live account must come in as a signer.
    pub open spec fn prev_is_signer(&self) -> bool {
        self.is_signer && !self.is_master
    }

    /// Whether the live account must come in as writable.
    pub open spec fn prev_is_writable(&self) -> bool {
        self.is_writable
    }

    /// Whether the account signs the dispatched call.
    pub open spec fn next_is_signer(&self) -> bool {
        self.is_signer
    }

    /// Whether the dispatched call may write to the account.
    pub open spec fn next_is_writable(&self) -> bool {
        self.is_writable
    }
}

/// The power of `amount` tokens committed from `locked_date` to `unlocked_date`.
///
/// A staked token counts once. A locked token counts once per second of the
/// commitment, which must not run backwards nor be longer than an `i64` holds.
pub open spec fn power_of(
    mechanism: ConsensusMechanism,
    amount: u64,
    locked_date: i64,
    unlocked_date: i64,
) -> Option<u128> {
    match mechanism {
        ConsensusMechanism::StakedTokenCounter => Some(amount as u128),
        ConsensusMechanism::LockedTokenCounter => {
            let seconds = unlocked_date - locked_date;
            if 0 <= seconds <= i64::MAX {
                Some((seconds * amount) as u128)
            } else {
                None
            }
        },
    }
}

/// The power that the net votes must exceed: a third, a half or two thirds of
/// `total`, rounded down.
pub open spec fn threshold_of(quorum: ConsensusQuorum, total: int) -> int {
    match quorum {
        ConsensusQuorum::OneThird => total / 3,
        ConsensusQuorum::Half => total / 2,
        ConsensusQuorum::TwoThird => (total * 2) / 3,
    }
}

/// No power is as large as half of what a `u128` holds.
pub proof fn lemma_power_bound(
    mechanism: ConsensusMechanism,
    amount: u64,
    locked_date: i64,
    unlocked_date: i64,
)
    ensures
        match power_of(mechanism, amount, locked_date, unlocked_date) {
            Some(power) => power * 2 <= u128::MAX && (mechanism
                == ConsensusMechanism::LockedTokenCounter ==> power == (unlocked_date
                - locked_date) * amount),
            None => true,
        },
{
    if mechanism == ConsensusMechanism::LockedTokenCounter {
        let seconds = unlocked_date - locked_date;
        if 0 <= seconds <= i64::MAX {
            assert(0 <= seconds * amount <= 0x7fff_ffff_ffff_ffff * 0xffff_ffff_ffff_ffff)
                by (nonlinear_arith)
                requires
                    0 <= seconds <= 0x7fff_ffff_ffff_ffff,
                    0 <= amount <= 0xffff_ffff_ffff_ffff,
            ;
        }
    }
}

/// Power is shared out evenly over the tokens: where a stake has a power, so
/// has each part of it, and the powers of two parts add up to that of the whole.
pub proof fn lemma_power_is_additive(
    mechanism: ConsensusMechanism,
    part: u64,
    rest: u64,
    locked_date: i64,
    unlocked_date: i64,
)
    requires
        part + rest <= u64::MAX,
        power_of(mechanism, (part + rest) as u64, locked_date, unlocked_date) is Some,
    ensures
        power_of(mechanism, part, locked_date, unlocked_date) is Some,
        power_of(mechanism, rest, locked_date, unlocked_date) is Some,
        power_of(mechanism, part, locked_date, unlocked_date)->0 + power_of(
            mechanism,
            rest,
            locked_date,
            unlocked_date,
        )->0 == power_of(mechanism, (part + rest) as u64, locked_date, unlocked_date)->0,
{
    lemma_power_bound(mechanism, part, locked_date, unlocked_date);
    lemma_power_bound(mechanism, rest, locked_date, unlocked_date);
    lemma_power_bound(mechanism, (part + rest) as u64, locked_date, unlocked_date);
    if mechanism == ConsensusMechanism::LockedTokenCounter {
        let seconds = unlocked_date - locked_date;
        assert(seconds * part + seconds * rest == seconds * (part + rest)) by (nonlinear_arith);
    }
}

#[derive(Clone, Debug, PartialEq, Eq)]
pub struct Proposal {
    pub index: u64,
    pub creator: Pubkey,
    pub dao: Pubkey,
    pub invoked_program: Pubkey,
    pub data_len: u64,
    pub data: Vec<u8>,
    pub accounts_len: u8,
    pub accounts: Vec<InvokedAccount>,
    /// The DAO's regime when the proposal was raised.
    pub regime: DaoRegime,
    pub consensus_mechanism: ConsensusMechanism,
    pub consensus_quorum: ConsensusQuorum,
    pub executed: bool,
    pub voting_for_power: u128,
    pub voting_against_power: u128,
    /// The DAO's supply when the proposal was raised.
    pub supply: u64,
    pub start_date: i64,
    pub end_date: i64,
    pub metadata: [u8; 32],
    /// How many instructions were recorded for step-by-step execution.
    pub total_instruction: u8,
    /// How many of them have been executed.
    pub total_executed: u8,
}

impl Proposal {
    /// The stored size of a proposal without the bytes and the accounts of its
    /// call.
    pub const HEADER_LEN: usize = DISCRIMINATOR_SIZE + U64_SIZE + PUBKEY_SIZE + PUBKEY_SIZE
        + PUBKEY_SIZE + U64_SIZE + U8_SIZE + U8_SIZE + U8_SIZE + U8_SIZE + BOOL_SIZE + U128_SIZE
        + U128_SIZE + U64_SIZE + I64_SIZE + I64_SIZE + U8_SIZE * 32 + U8_SIZE + U8_SIZE;

    /// What holds of every proposal that this library made and changed: the
    /// vote has a positive length, the stored lengths are those of the lists,
    /// and no more instructions were executed than recorded.
    pub open spec fn well_formed(&self) -> bool {
        &&& self.start_date < self.end_date
        &&& self.data_len == self.data@.len()
        &&& self.accounts_len == self.accounts@.len()
        &&& self.total_executed <= self.total_instruction
    }

    /// The whole votable power: the supply, counted as a stake held for the
    /// length of the vote.
    pub open spec fn spec_total_power(&self) -> Option<u128> {
        power_of(self.consensus_mechanism, self.supply, self.start_date, self.end_date)
    }

    /// The votes in favour less the votes against, and zero where these outweigh.
    pub open spec fn spec_voting_power(&self) -> u128 {
        if self.voting_for_power >= self.voting_against_power {
            (self.voting_for_power - self.voting_against_power) as u128
        } else {
            0
        }
    }

    /// The end of a commitment: the date asked for, and no later than the end of
    /// the vote.
    pub open spec fn committed_end(&self, unlocked_date: i64) -> i64 {
        if unlocked_date < self.end_date {
            unlocked_date
        } else {
            self.end_date
        }
    }

    /// The proposal with one side's tally replaced.
    pub open spec fn with_tally(self, action: ReceiptAction, value: u128) -> Proposal {
        match action {
            ReceiptAction::VoteFor => Proposal { voting_for_power: value, ..self },
            ReceiptAction::VoteAgainst => Proposal { voting_against_power: value, ..self },
        }
    }

    /// The power that a vote of `amount` tokens on the side `action` is counted
    /// with; nothing where the power or the new tally leaves its range.
    pub open spec fn countable(
        &self,
        action: ReceiptAction,
        amount: u64,
        unlocked_date: i64,
        locked_date: i64,
    ) -> Option<u128> {
        match self.spec_power(amount, unlocked_date, locked_date) {
            Some(power) => if self.tally(action) + power <= u128::MAX {
                Some(power)
            } else {
                None
            },
            None => None,
        }
    }

    pub fn total_power(&self) -> (total: Option<u128>)
        ensures
            total == self.spec_total_power(),
    {
        weigh(self.consensus_mechanism, self.supply, self.start_date, self.end_date)
    }

    pub fn voting_power(&self) -> (net: u128)
        ensures
            net == self.spec_voting_power(),
    {
        match self.voting_for_power.checked_sub(self.voting_against_power) {
            Some(net) => net,
            None => 0,
        }
    }

    /// The power that `amount` tokens of `receipt` can be withdrawn with.
    pub fn void_power(&self, amount: u64, receipt: &Receipt) -> (power: Option<u128>)
        ensures
            power == self.withdrawable(amount, *receipt),
    {
        let power = weigh(
            self.consensus_mechanism,
            amount,
            receipt.locked_date,
            receipt.unlocked_date,
        )?;
        let tally = match receipt.action {
            ReceiptAction::VoteFor => self.voting_for_power,
            ReceiptAction::VoteAgainst => self.voting_against_power,
        };
        if amount <= receipt.amount && power <= receipt.power && power <= tally {
            Some(power)
        } else {
            None
        }
    }

    pub fn is_more_than_one_third(&self) -> (more: Option<bool>)
        ensures
            more == match self.spec_total_power() {
                Some(total) => Some(self.spec_voting_power() > total / 3),
                None => None,
            },
    {
        let total_power = self.total_power()?;
        let threshold = total_power.checked_div(3)?;
        let voting_power = self.voting_power();
        if voting_power > threshold {
            Some(true)
        } else {
            Some(false)
        }
    }

    pub fn is_more_than_half(&self) -> (more: Option<bool>)
        ensures
            more == match self.spec_total_power() {
                Some(total) => Some(self.spec_voting_power() > total / 2),
                None => None,
            },
    {
        let total_power = self.total_power()?;
        let threshold = total_power.checked_div(2)?;
        let voting_power = self.voting_power();
        if voting_power > threshold {
            Some(true)
        } else {
            Some(false)
        }
    }

    pub fn is_more_than_two_third(&self) -> (more: Option<bool>)
        ensures
            more == match self.spec_total_power() {
                Some(total) => Some(self.spec_voting_power() > (total * 2) / 3),
                None => None,
            },
    {
        let total_power = self.total_power()?;
        proof {
            lemma_power_bound(self.consensus_mechanism, self.supply, self.start_date, self.end_date);
        }
        let threshold = total_power.checked_mul(2)?.checked_div(3)?;
        let voting_power = self.voting_power();
        if voting_power > threshold {
            Some(true)
        } else {
            Some(false)
        }
    }
}

/// With the total power and everything else unchanged, more votes in favour
/// never take consent away.
pub proof fn lemma_consent_is_monotonic(before: Proposal, after: Proposal)
    requires
        after == (Proposal { voting_for_power: after.voting_for_power, ..before }),
        before.voting_for_power <= after.voting_for_power,
        before.spec_is_consented(),
    ensures
        after.spec_is_consented(),
        after.spec_total_power() == before.spec_total_power(),
        after.spec_voting_power() >= before.spec_voting_power(),
{
}

/// A vote that is counted leaves a receipt that holds the tokens voted with and
/// the power that these tokens have between the dates of the receipt. It moves
/// the tally of its side up by that power and nothing else of the proposal.
pub proof fn lemma_vote_is_recorded(
    proposal: Proposal,
    action: ReceiptAction,
    amount: u64,
    unlocked_date: i64,
    locked_date: i64,
    receipt: Receipt,
)
    requires
        proposal.spec_vote(action, amount, unlocked_date, locked_date, receipt) is Some,
    ensures
        ({
            let (voted, filled) = proposal.spec_vote(
                action,
                amount,
                unlocked_date,
                locked_date,
                receipt,
            )->0;
            &&& filled.amount == amount
            &&& filled.action == action
            &&& filled.power_is_derived(proposal.consensus_mechanism)
            &&& voted.tally(action) == proposal.tally(action) + filled.power
            &&& voted == proposal.with_tally(action, voted.tally(action))
            &&& voted.well_formed() == proposal.well_formed()
        }),
{
}

/// Taking tokens out of the count leaves a receipt whose power is still the one
/// that its remaining tokens have between its dates. The receipt and the tally
/// of its side go down by the same power, and nothing else changes.
pub proof fn lemma_void_keeps_power_derived(proposal: Proposal, amount: u64, receipt: Receipt)
    requires
        receipt.power_is_derived(proposal.consensus_mechanism),
        proposal.spec_void(amount, receipt) is Some,
    ensures
        ({
            let (voided, rest) = proposal.spec_void(amount, receipt)->0;
            &&& rest.amount == receipt.amount - amount
            &&& rest.action == receipt.action
            &&& rest.power_is_derived(proposal.consensus_mechanism)
            &&& receipt.power - rest.power == proposal.tally(receipt.action) - voided.tally(
                receipt.action,
            )
            &&& voided == proposal.with_tally(receipt.action, voided.tally(receipt.action))
            &&& voided.well_formed() == proposal.well_formed()
        }),
{
    let (voided, rest) = proposal.spec_void(amount, receipt)->0;
    lemma_power_is_additive(
        proposal.consensus_mechanism,
        amount,
        rest.amount,
        receipt.locked_date,
        receipt.unlocked_date,
    );
}

/// Every token of a receipt whose power is derived can be taken out of the
/// count again, as long as the tally of its side still holds the power.
pub proof fn lemma_whole_receipt_is_withdrawable(proposal: Proposal, receipt: Receipt)
    requires
        receipt.power_is_derived(proposal.consensus_mechanism),
        receipt.power <= proposal.tally(receipt.action),
    ensures
        proposal.withdrawable(receipt.amount, receipt) == Some(receipt.power),
{
}

/// Computes `power_of` with checked steps.
fn weigh(mechanism: ConsensusMechanism, amount: u64, locked_date: i64, unlocked_date: i64) -> (power:
    Option<u128>)
    ensures
        power == power_of(mechanism, amount, locked_date, unlocked_date),
{
    proof {
        lemma_power_bound(mechanism, amount, locked_date, unlocked_date);
    }
    match mechanism {
        ConsensusMechanism::StakedTokenCounter => u64_to_u128(amount),
        ConsensusMechanism::LockedTokenCounter => {
            let seconds = i64_to_u128(unlocked_date.checked_sub(locked_date)?)?;
            seconds.checked_mul(u64_to_u128(amount)?)
        },
    }
}

impl Consensus for Proposal {
    /// Whether the net votes exceed the quorum's share of the total power.
    /// A proposal whose total power cannot be computed never has consent.
    open spec fn spec_is_consented(&self) -> bool {
        match self.spec_total_power() {
            Some(total) => self.spec_voting_power() > threshold_of(
                self.consensus_quorum,
                total as int,
            ),
            None => false,
        }
    }

    /// The power of `amount` tokens locked at `locked_date` and asked back at
    /// `unlocked_date`.
    open spec fn spec_power(&self, amount: u64, unlocked_date: i64, locked_date: i64) -> Option<
        u128,
    > {
        power_of(self.consensus_mechanism, amount, locked_date, self.committed_end(unlocked_date))
    }

    /// The tally of one side.
    open spec fn tally(&self, action: ReceiptAction) -> u128 {
        match action {
            ReceiptAction::VoteFor => self.voting_for_power,
            ReceiptAction::VoteAgainst => self.voting_against_power,
        }
    }

    /// The proposal and the receipt after a vote of `amount` tokens on the side
    /// `action`, where it can be counted. The receipt holds the tokens, their
    /// power, the side and the dates between which the tokens are committed.
    open spec fn spec_vote(
        self,
        action: ReceiptAction,
        amount: u64,
        unlocked_date: i64,
        locked_date: i64,
        receipt: Receipt,
    ) -> Option<(Proposal, Receipt)> {
        match self.countable(action, amount, unlocked_date, locked_date) {
            Some(power) => Some(
                (
                    self.with_tally(action, (self.tally(action) + power) as u128),
                    Receipt {
                        amount,
                        power,
                        locked_date,
                        unlocked_date: self.committed_end(unlocked_date),
                        action,
                        ..receipt
                    },
                ),
            ),
            None => None,
        }
    }

    /// The power that `amount` tokens of `receipt` are withdrawn with: the one
    /// they were counted with. Nothing where the receipt holds fewer tokens or
    /// less power than that, or the tally of its side is smaller.
    open spec fn withdrawable(&self, amount: u64, receipt: Receipt) -> Option<u128> {
        match power_of(
            self.consensus_mechanism,
            amount,
            receipt.locked_date,
            receipt.unlocked_date,
        ) {
            Some(power) => if amount <= receipt.amount && power <= receipt.power && power
                <= self.tally(receipt.action) {
                Some(power)
            } else {
                None
            },
            None => None,
        }
    }

    /// The proposal and the receipt after `amount` tokens of the receipt were
    /// taken out of the count, where they can be.
    open spec fn spec_void(self, amount: u64, receipt: Receipt) -> Option<(Proposal, Receipt)> {
        match self.withdrawable(amount, receipt) {
            Some(power) => Some(
                (
                    self.with_tally(receipt.action, (self.tally(receipt.action) - power) as u128),
                    Receipt {
                        amount: (receipt.amount - amount) as u64,
                        power: (receipt.power - power) as u128,
                        ..receipt
                    },
                ),
            ),
            None => None,
        }
    }

    fn calculate_my_power(&self, amount: u64, unlocked_date: i64, locked_date: i64) -> (power:
        Option<u128>)
    {
        let committed_end = if unlocked_date < self.end_date {
            unlocked_date
        } else {
            self.end_date
        };
        weigh(self.consensus_mechanism, amount, locked_date, committed_end)
    }

    fn vote_for(
        &mut self,
        amount: u64,
        unlocked_date: i64,
        locked_date: i64,
        receipt: &mut Receipt,
    ) -> (counted: Option<(u128, u128)>)
    {
        let power = self.calculate_my_power(amount, unlocked_date, locked_date)?;
        let tally = self.voting_for_power.checked_add(power)?;
        receipt.amount = amount;
        receipt.power = power;
        receipt.locked_date = locked_date;
        receipt.unlocked_date = if unlocked_date < self.end_date {
            unlocked_date
        } else {
            self.end_date
        };
        receipt.action = ReceiptAction::VoteFor;
        self.voting_for_power = tally;
        Some((power, tally))
    }

    fn vote_against(
        &mut self,
        amount: u64,
        unlocked_date: i64,
        locked_date: i64,
        receipt: &mut Receipt,
    ) -> (counted: Option<(u128, u128)>)
    {
        let power = self.calculate_my_power(amount, unlocked_date, locked_date)?;
        let tally = self.voting_against_power.checked_add(power)?;
        receipt.amount = amount;
        receipt.power = power;
        receipt.locked_date = locked_date;
        receipt.unlocked_date = if unlocked_date < self.end_date {
            unlocked_date
        } else {
            self.end_date
        };
        receipt.action = ReceiptAction::VoteAgainst;
        self.voting_against_power = tally;
        Some((power, tally))
    }

    fn void(&mut self, amount: u64, receipt: &mut Receipt) -> (withdrawn: Option<(u128, u128)>)
    {
        let power = self.void_power(amount, receipt)?;
        receipt.amount = receipt.amount - amount;
        receipt.power = receipt.power - power;
        match receipt.action {
            ReceiptAction::VoteFor => {
                self.voting_for_power = self.voting_for_power - power;
                Some((power, self.voting_for_power))
            },
            ReceiptAction::VoteAgainst => {
                self.voting_against_power = self.voting_against_power - power;
                Some((power, self.voting_against_power))
            },
        }
    }

    fn is_consented(&self) -> (consented: bool)
    {
        let more = match self.consensus_quorum {
            ConsensusQuorum::OneThird => self.is_more_than_one_third(),
            ConsensusQuorum::Half => self.is_more_than_half(),
            ConsensusQuorum::TwoThird => self.is_more_than_two_third(),
        };
        match more {
            Some(more) => more,
            None => false,
        }
    }
}

impl Age for Proposal {
    /// The vote has started by the time `now`.
    open spec fn started_at(&self, now: i64) -> bool {
        now >= self.start_date
    }

    /// The vote has ended by the time `now`: its last second has passed.
    open spec fn ended_at(&self, now: i64) -> bool {
        now > self.end_date
    }

    open spec fn spec_is_executed(&self) -> bool {
        self.executed
    }

    fn is_started(&self, now: i64) -> (started: bool)
    {
        now >= self.start_date
    }

    fn is_ended(&self, now: i64) -> (ended: bool)
    {
        now > self.end_date
    }

    fn is_executed(&self) -> (executed: bool)
    {
        self.executed
    }
}

} // verus!
