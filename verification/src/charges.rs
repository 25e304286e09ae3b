//! What an operation costs its caller besides the stake.

use vstd::prelude::*;

verus! {

/// The payments that the host takes from the caller when an operation
/// succeeds. A side that is free is not paid at all.
#[derive(Clone, Copy, Debug, PartialEq, Eq)]
pub struct Charges {
    /// What goes to the protocol.
    pub tax: Option<u64>,
    /// What goes to the DAO.
    pub revenue: Option<u64>,
}

/// The payment of `amount`: none where it is zero.
pub open spec fn payment(amount: u64) -> Option<u64> {
    if amount > 0 {
        Some(amount)
    } else {
        None
    }
}

impl Charges {
    /// The payments for a tax of `tax` and a revenue of `revenue`.
    pub open spec fn due(tax: u64, revenue: u64) -> Charges {
        Charges { tax: payment(tax), revenue: payment(revenue) }
    }

    pub fn new(tax: u64, revenue: u64) -> (charges: Charges)
        ensures
            charges == Charges::due(tax, revenue),
    {
        Charges {
            tax: if tax > 0 {
                Some(tax)
            } else {
                None
            },
            revenue: if revenue > 0 {
                Some(revenue)
            } else {
                None
            },
        }
    }
}

} // verus!
