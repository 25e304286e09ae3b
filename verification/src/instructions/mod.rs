//! The operations, one module each. An operation checks every guard before it
//! changes a record, so that a refusal leaves all records as they were.

pub mod close;
pub mod close_nft_voting;
pub mod execute_proposal;
pub mod execute_proposal_instruction;
pub mod get_nft_metadata;
pub mod initialize_content;
pub mod initialize_dao;
pub mod initialize_ipfsol;
pub mod initialize_proposal;
pub mod initialize_proposal_instruction;
pub mod transfer_authority;
pub mod update_dao_metadata;
pub mod update_dao_regime;
pub mod update_supply;
pub mod void;
pub mod vote;
pub mod vote_against;
pub mod vote_nft_against;
