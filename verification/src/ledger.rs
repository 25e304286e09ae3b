//! A proposal together with the receipts of its voters and the tokens held in
//! escrow for them, and what holds of the three however votes are cast,
//! withdrawn and closed.

use crate::instructions::close;
use crate::instructions::void;
use crate::instructions::vote;
use crate::pubkey::Pubkey;
use crate::schema::proposal::{lemma_vote_is_recorded, lemma_void_keeps_power_derived, Proposal};
use crate::schema::receipt::{Receipt, ReceiptAction};
use crate::traits::Consensus;
use vstd::prelude::*;

verus! {

/// A proposal, the receipts that were written for it in the order of the
/// votes, and the tokens that the host holds in escrow for it.
pub struct Ledger {
    pub proposal: Proposal,
    pub receipts: Seq<Receipt>,
    pub escrow: int,
}

/// An attempt to vote, to withdraw a vote or to close a receipt, with
/// everything the host hands in.
pub enum Operation {
    /// A vote that, where it is counted, adds a receipt to the ledger and its
    /// tokens to the escrow.
    Vote {
        action: ReceiptAction,
        index: u64,
        authority: Pubkey,
        proposal_key: Pubkey,
        mint_nft: Pubkey,
        amount: u64,
        unlocked_date: i64,
        clock_at_start_check: Option<i64>,
        clock_at_end_check: Option<i64>,
        clock_at_lock: Option<i64>,
    },
    /// A withdrawal of tokens of the receipt at `position`, which leave the
    /// escrow.
    Void { position: int, amount: u64, treasurer_bump: Option<u8>, clock: Option<i64> },
    /// The close of the receipt at `position`, whose tokens leave the escrow.
    Close { position: int, treasurer_bump: Option<u8>, clock: Option<i64> },
}

/// What a receipt adds to the tally of one side: its power on its own side,
/// nothing on the other.
pub open spec fn share(receipt: Receipt, action: ReceiptAction) -> nat {
    if receipt.action == action {
        receipt.power as nat
    } else {
        0
    }
}

/// The sum of what the receipts add to the tally of one side.
pub open spec fn power_sum(receipts: Seq<Receipt>, action: ReceiptAction) -> nat
    decreases receipts.len(),
{
    if receipts.len() == 0 {
        0
    } else {
        power_sum(receipts.drop_last(), action) + share(receipts.last(), action)
    }
}

/// The sum of the tokens that the receipts hold.
pub open spec fn amount_sum(receipts: Seq<Receipt>) -> nat
    decreases receipts.len(),
{
    if receipts.len() == 0 {
        0
    } else {
        amount_sum(receipts.drop_last()) + receipts.last().amount as nat
    }
}

impl Ledger {
    /// Each tally of the proposal is the sum of the powers of the receipts of
    /// its side, and each receipt holds the power that its tokens have.
    pub open spec fn balanced(self) -> bool {
        &&& self.proposal.voting_for_power == power_sum(self.receipts, ReceiptAction::VoteFor)
        &&& self.proposal.voting_against_power == power_sum(
            self.receipts,
            ReceiptAction::VoteAgainst,
        )
        &&& forall|i: int|
            0 <= i < self.receipts.len() ==> (#[trigger] self.receipts[i]).power_is_derived(
                self.proposal.consensus_mechanism,
            )
    }

    /// The escrow holds the tokens of the receipts, no more and no less.
    pub open spec fn funded(self) -> bool {
        self.escrow == amount_sum(self.receipts)
    }

    /// The ledger after an operation: changed as the operation says where it is
    /// accepted, unchanged where it is refused.
    pub open spec fn after(self, operation: Operation) -> Ledger {
        match operation {
            Operation::Vote {
                action,
                index,
                authority,
                proposal_key,
                mint_nft,
                amount,
                unlocked_date,
                clock_at_start_check,
                clock_at_end_check,
                clock_at_lock,
            } => if vote::rejection(
                self.proposal,
                action,
                amount,
                unlocked_date,
                clock_at_start_check,
                clock_at_end_check,
                clock_at_lock,
            ) is None {
                let (proposal, receipt) = self.proposal.spec_vote(
                    action,
                    amount,
                    unlocked_date,
                    clock_at_lock->0,
                    Receipt::blank(index, authority, proposal_key, mint_nft),
                )->0;
                Ledger {
                    proposal,
                    receipts: self.receipts.push(receipt),
                    escrow: self.escrow + amount,
                }
            } else {
                self
            },
            Operation::Void { position, amount, treasurer_bump, clock } => if 0 <= position
                < self.receipts.len() && void::rejection(
                self.proposal,
                self.receipts[position],
                amount,
                treasurer_bump,
                clock,
            ) is None {
                let (proposal, receipt) = self.proposal.spec_void(
                    amount,
                    self.receipts[position],
                )->0;
                Ledger {
                    proposal,
                    receipts: self.receipts.update(position, receipt),
                    escrow: self.escrow - amount,
                }
            } else {
                self
            },
            Operation::Close { position, treasurer_bump, clock } => if 0 <= position
                < self.receipts.len() && close::rejection(self.proposal, treasurer_bump, clock)
                is None {
                Ledger {
                    proposal: self.proposal,
                    receipts: self.receipts.update(
                        position,
                        close::closed(self.receipts[position]),
                    ),
                    escrow: self.escrow - close::released(self.receipts[position]),
                }
            } else {
                self
            },
        }
    }

    /// The ledger after a sequence of operations, one after the other.
    pub open spec fn after_all(self, operations: Seq<Operation>) -> Ledger
        decreases operations.len(),
    {
        if operations.len() == 0 {
            self
        } else {
            self.after_all(operations.drop_last()).after(operations.last())
        }
    }
}

/// No receipt is closed among the operations.
pub open spec fn none_closes(operations: Seq<Operation>) -> bool {
    forall|i: int| 0 <= i < operations.len() ==> !(#[trigger] operations[i] is Close)
}

/// One more receipt adds its share to the sum of the powers.
pub proof fn lemma_power_sum_of_push(receipts: Seq<Receipt>, receipt: Receipt, action: ReceiptAction)
    ensures
        power_sum(receipts.push(receipt), action) == power_sum(receipts, action) + share(
            receipt,
            action,
        ),
{
    assert(receipts.push(receipt).drop_last() =~= receipts);
}

/// A receipt that changes takes its old share out of the sum of the powers and
/// puts its new share in.
pub proof fn lemma_power_sum_of_update(
    receipts: Seq<Receipt>,
    position: int,
    receipt: Receipt,
    action: ReceiptAction,
)
    requires
        0 <= position < receipts.len(),
    ensures
        power_sum(receipts.update(position, receipt), action) + share(receipts[position], action)
            == power_sum(receipts, action) + share(receipt, action),
    decreases receipts.len(),
{
    let updated = receipts.update(position, receipt);
    if position == receipts.len() - 1 {
        assert(updated.drop_last() =~= receipts.drop_last());
    } else {
        assert(updated.drop_last() =~= receipts.drop_last().update(position, receipt));
        lemma_power_sum_of_update(receipts.drop_last(), position, receipt, action);
    }
}

/// One more receipt adds its tokens to the sum of the tokens.
pub proof fn lemma_amount_sum_of_push(receipts: Seq<Receipt>, receipt: Receipt)
    ensures
        amount_sum(receipts.push(receipt)) == amount_sum(receipts) + receipt.amount,
{
    assert(receipts.push(receipt).drop_last() =~= receipts);
}

/// A receipt that changes takes its old tokens out of the sum of the tokens
/// and puts its new tokens in. No receipt holds more than the sum.
pub proof fn lemma_amount_sum_of_update(receipts: Seq<Receipt>, position: int, receipt: Receipt)
    requires
        0 <= position < receipts.len(),
    ensures
        amount_sum(receipts.update(position, receipt)) + receipts[position].amount == amount_sum(
            receipts,
        ) + receipt.amount,
        receipts[position].amount <= amount_sum(receipts),
    decreases receipts.len(),
{
    let updated = receipts.update(position, receipt);
    if position == receipts.len() - 1 {
        assert(updated.drop_last() =~= receipts.drop_last());
    } else {
        assert(updated.drop_last() =~= receipts.drop_last().update(position, receipt));
        lemma_amount_sum_of_update(receipts.drop_last(), position, receipt);
    }
}

/// A proposal without votes, without receipts and with an empty escrow is
/// balanced and funded.
pub proof fn lemma_empty_ledger_is_sound(proposal: Proposal)
    requires
        proposal.voting_for_power == 0,
        proposal.voting_against_power == 0,
    ensures
        (Ledger { proposal, receipts: Seq::empty(), escrow: 0 }).balanced(),
        (Ledger { proposal, receipts: Seq::empty(), escrow: 0 }).funded(),
{
}

/// No vote and no withdrawal, accepted or refused, unbalances a ledger.
pub proof fn lemma_operation_keeps_balance(ledger: Ledger, operation: Operation)
    requires
        ledger.balanced(),
        !(operation is Close),
    ensures
        ledger.after(operation).balanced(),
        ledger.after(operation).proposal.consensus_mechanism
            == ledger.proposal.consensus_mechanism,
{
    let next = ledger.after(operation);
    match operation {
        Operation::Vote {
            action,
            index,
            authority,
            proposal_key,
            mint_nft,
            amount,
            unlocked_date,
            clock_at_start_check,
            clock_at_end_check,
            clock_at_lock,
        } => {
            if vote::rejection(
                ledger.proposal,
                action,
                amount,
                unlocked_date,
                clock_at_start_check,
                clock_at_end_check,
                clock_at_lock,
            ) is None {
                let blank = Receipt::blank(index, authority, proposal_key, mint_nft);
                let (proposal, receipt) = ledger.proposal.spec_vote(
                    action,
                    amount,
                    unlocked_date,
                    clock_at_lock->0,
                    blank,
                )->0;
                lemma_vote_is_recorded(
                    ledger.proposal,
                    action,
                    amount,
                    unlocked_date,
                    clock_at_lock->0,
                    blank,
                );
                lemma_power_sum_of_push(ledger.receipts, receipt, ReceiptAction::VoteFor);
                lemma_power_sum_of_push(ledger.receipts, receipt, ReceiptAction::VoteAgainst);
                assert forall|i: int| 0 <= i < next.receipts.len() implies (
                #[trigger] next.receipts[i]).power_is_derived(
                    next.proposal.consensus_mechanism,
                ) by {
                    if i < ledger.receipts.len() {
                        assert(next.receipts[i] == ledger.receipts[i]);
                    }
                }
            }
        },
        Operation::Void { position, amount, treasurer_bump, clock } => {
            if 0 <= position < ledger.receipts.len() && void::rejection(
                ledger.proposal,
                ledger.receipts[position],
                amount,
                treasurer_bump,
                clock,
            ) is None {
                let old_receipt = ledger.receipts[position];
                let (proposal, receipt) = ledger.proposal.spec_void(amount, old_receipt)->0;
                lemma_void_keeps_power_derived(ledger.proposal, amount, old_receipt);
                lemma_power_sum_of_update(
                    ledger.receipts,
                    position,
                    receipt,
                    ReceiptAction::VoteFor,
                );
                lemma_power_sum_of_update(
                    ledger.receipts,
                    position,
                    receipt,
                    ReceiptAction::VoteAgainst,
                );
                assert forall|i: int| 0 <= i < next.receipts.len() implies (
                #[trigger] next.receipts[i]).power_is_derived(
                    next.proposal.consensus_mechanism,
                ) by {
                    if i != position {
                        assert(next.receipts[i] == ledger.receipts[i]);
                    }
                }
            }
        },
        Operation::Close { .. } => {},
    }
}

/// No operation, accepted or refused, leaves the escrow with more or fewer
/// tokens than the receipts hold, takes more out of the escrow than is in it,
/// or marks the proposal as executed or unexecuted.
pub proof fn lemma_operation_keeps_funds(ledger: Ledger, operation: Operation)
    requires
        ledger.funded(),
    ensures
        ledger.after(operation).funded(),
        ledger.after(operation).escrow >= 0,
        ledger.after(operation).proposal.executed == ledger.proposal.executed,
{
    match operation {
        Operation::Vote {
            action,
            index,
            authority,
            proposal_key,
            mint_nft,
            amount,
            unlocked_date,
            clock_at_start_check,
            clock_at_end_check,
            clock_at_lock,
        } => {
            if vote::rejection(
                ledger.proposal,
                action,
                amount,
                unlocked_date,
                clock_at_start_check,
                clock_at_end_check,
                clock_at_lock,
            ) is None {
                let (proposal, receipt) = ledger.proposal.spec_vote(
                    action,
                    amount,
                    unlocked_date,
                    clock_at_lock->0,
                    Receipt::blank(index, authority, proposal_key, mint_nft),
                )->0;
                lemma_amount_sum_of_push(ledger.receipts, receipt);
            }
        },
        Operation::Void { position, amount, treasurer_bump, clock } => {
            if 0 <= position < ledger.receipts.len() && void::rejection(
                ledger.proposal,
                ledger.receipts[position],
                amount,
                treasurer_bump,
                clock,
            ) is None {
                let (proposal, receipt) = ledger.proposal.spec_void(
                    amount,
                    ledger.receipts[position],
                )->0;
                lemma_amount_sum_of_update(ledger.receipts, position, receipt);
            }
        },
        Operation::Close { position, treasurer_bump, clock } => {
            if 0 <= position < ledger.receipts.len() && close::rejection(
                ledger.proposal,
                treasurer_bump,
                clock,
            ) is None {
                lemma_amount_sum_of_update(
                    ledger.receipts,
                    position,
                    close::closed(ledger.receipts[position]),
                );
            }
        },
    }
}

/// Whatever votes are cast and withdrawn on a proposal, in whatever order and
/// whether they are accepted or refused: each tally stays the sum of the powers
/// that the receipts of its side hold, which is never negative and never more
/// than a tally can hold.
pub proof fn lemma_tallies_are_sums_of_receipts(ledger: Ledger, operations: Seq<Operation>)
    requires
        ledger.balanced(),
        none_closes(operations),
    ensures
        ledger.after_all(operations).balanced(),
        ledger.after_all(operations).proposal.consensus_mechanism
            == ledger.proposal.consensus_mechanism,
        0 <= power_sum(ledger.after_all(operations).receipts, ReceiptAction::VoteFor) <= u128::MAX,
        0 <= power_sum(ledger.after_all(operations).receipts, ReceiptAction::VoteAgainst)
            <= u128::MAX,
    decreases operations.len(),
{
    if operations.len() > 0 {
        assert(none_closes(operations.drop_last())) by {
            assert forall|i: int| 0 <= i < operations.drop_last().len() implies !(
            #[trigger] operations.drop_last()[i] is Close) by {
                assert(operations.drop_last()[i] == operations[i]);
            }
        }
        lemma_tallies_are_sums_of_receipts(ledger, operations.drop_last());
        lemma_operation_keeps_balance(
            ledger.after_all(operations.drop_last()),
            operations.last(),
        );
    }
}

/// Whatever votes are cast, withdrawn and closed on a proposal, in whatever
/// order and whether they are accepted or refused: the escrow holds the tokens
/// of the receipts, no more and no less, so that what a receipt is owed is
/// always there. None of these operations executes the proposal.
pub proof fn lemma_escrow_holds_the_receipts(ledger: Ledger, operations: Seq<Operation>)
    requires
        ledger.funded(),
    ensures
        ledger.after_all(operations).funded(),
        ledger.after_all(operations).escrow >= 0,
        ledger.after_all(operations).proposal.executed == ledger.proposal.executed,
    decreases operations.len(),
{
    if operations.len() > 0 {
        lemma_escrow_holds_the_receipts(ledger, operations.drop_last());
        lemma_operation_keeps_funds(ledger.after_all(operations.drop_last()), operations.last());
    }
}

impl Operation {
    /// The operation neither withdraws from nor closes the receipt at
    /// `position`.
    pub open spec fn leaves_alone(self, position: int) -> bool {
        match self {
            Operation::Vote { .. } => true,
            Operation::Void { position: touched, .. } => touched != position,
            Operation::Close { position: touched, .. } => touched != position,
        }
    }
}

/// A receipt stays in its place as it is through whatever is done to the
/// proposal and to the other receipts.
pub proof fn lemma_untouched_receipt_stays(
    ledger: Ledger,
    position: int,
    operations: Seq<Operation>,
)
    requires
        0 <= position < ledger.receipts.len(),
        forall|i: int| 0 <= i < operations.len() ==> (#[trigger] operations[i]).leaves_alone(position),
    ensures
        position < ledger.after_all(operations).receipts.len(),
        ledger.after_all(operations).receipts[position] == ledger.receipts[position],
    decreases operations.len(),
{
    if operations.len() > 0 {
        let earlier = operations.drop_last();
        assert forall|i: int| 0 <= i < earlier.len() implies (#[trigger] earlier[i]).leaves_alone(
            position,
        ) by {
            assert(earlier[i] == operations[i]);
        }
        lemma_untouched_receipt_stays(ledger, position, earlier);
        assert(operations.last() == operations[operations.len() - 1]);
    }
}

/// What is handed back when a receipt is closed is what went into escrow when
/// the vote was cast, under either mechanism and whatever happened to the
/// proposal and to the other receipts in between, as long as nothing was
/// withdrawn from the receipt itself.
pub proof fn lemma_close_releases_the_escrow(
    ledger: Ledger,
    vote: Operation,
    operations: Seq<Operation>,
)
    requires
        vote matches Operation::Vote {
            action,
            amount,
            unlocked_date,
            clock_at_start_check,
            clock_at_end_check,
            clock_at_lock,
            ..
        } && vote::rejection(
            ledger.proposal,
            action,
            amount,
            unlocked_date,
            clock_at_start_check,
            clock_at_end_check,
            clock_at_lock,
        ) is None,
        forall|i: int|
            0 <= i < operations.len() ==> (#[trigger] operations[i]).leaves_alone(
                ledger.receipts.len() as int,
            ),
    ensures
        ({
            let position = ledger.receipts.len() as int;
            let later = ledger.after(vote).after_all(operations);
            &&& position < later.receipts.len()
            &&& close::released(later.receipts[position]) == vote->Vote_amount
        }),
{
    lemma_untouched_receipt_stays(ledger.after(vote), ledger.receipts.len() as int, operations);
}

/// What is handed back over the life of a receipt is what went into escrow:
/// the tokens withdrawn while the vote was running and the tokens released at
/// the close add up to the tokens that the receipt held.
pub proof fn lemma_void_and_close_release_the_escrow(
    proposal: Proposal,
    receipt: Receipt,
    withdrawn: u64,
)
    requires
        proposal.spec_void(withdrawn, receipt) is Some,
    ensures
        ({
            let (voided, rest) = proposal.spec_void(withdrawn, receipt)->0;
            withdrawn + close::released(rest) == receipt.amount
        }),
{
}

} // verus!
