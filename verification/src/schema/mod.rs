//! The stored records.

pub mod content;
pub mod dao;
pub mod ipfsol;
pub mod proposal;
pub mod proposal_instruction;
pub mod receipt;

pub use content::Content;
pub use dao::{Dao, DaoRegime};
pub use ipfsol::Ipfsol;
pub use proposal::{ConsensusMechanism, ConsensusQuorum, InvokedAccount, Proposal};
pub use proposal_instruction::ProposalInstruction;
pub use receipt::{Receipt, ReceiptAction};
