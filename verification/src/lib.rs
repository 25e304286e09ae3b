//! Governance rules of a token-weighted DAO: who may propose and execute, how
//! much a vote counts, when a proposal has the community's consent, and how a
//! recorded call is checked against the live accounts before it is dispatched.
//!
//! The library works on plain records. The host that stores the records, reads
//! the clock, moves tokens and dispatches calls hands its readings in and
//! carries out what the operations report back.

pub mod charges;
pub mod constants;
pub mod errors;
pub mod instructions;
pub mod invoke;
pub mod ledger;
pub mod nft;
pub mod numeric;
pub mod pubkey;
pub mod schema;
pub mod traits;

pub use errors::ErrorCode;
pub use pubkey::Pubkey;
