use crate::constants::{BOOL_SIZE, DISCRIMINATOR_SIZE, PUBKEY_SIZE, U64_SIZE, U8_SIZE};
use crate::pubkey::Pubkey;
pub use crate::schema::proposal::InvokedAccount;
use vstd::prelude::*;

verus! {

/// One call of a proposal that is executed step by step.
#[derive(Clone, Debug, PartialEq, Eq)]
pub struct ProposalInstruction {
    pub proposal: Pubkey,
    /// The place of the call in the order of execution.
    pub index: u8,
    /// The transaction that the call is sent in.
    pub tx_index: u8,
    pub executed: bool,
    pub data_len: u64,
    pub data: Vec<u8>,
    pub accounts_len: u8,
    pub accounts: Vec<InvokedAccount>,
    pub invoked_program: Pubkey,
}

impl ProposalInstruction {
    pub const HEADER_LEN: usize = DISCRIMINATOR_SIZE + U8_SIZE * 2 + PUBKEY_SIZE + PUBKEY_SIZE
        + U64_SIZE + U8_SIZE + BOOL_SIZE;

    /// The stored lengths are those of the lists.
    pub open spec fn well_formed(&self) -> bool {
        &&& self.data_len == self.data@.len()
        &&& self.accounts_len == self.accounts@.len()
    }

    pub fn is_executed(&self) -> (executed: bool)
        ensures
            executed == self.executed,
    {
        self.executed
    }
}

} // verus!
