//! Account layouts and instructions of a fantasy sports program, with their contracts.
pub mod consts;
pub mod error;
pub mod bytes;
pub mod pubkey;
pub mod instruction;
pub mod position;
pub mod player;
pub mod swap_proposal;
pub mod swap_proposals_list;
pub mod lists;
pub mod root;
pub mod processor;
