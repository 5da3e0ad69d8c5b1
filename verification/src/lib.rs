//! An escrow state machine: third-party-arbitrated deposits of native coins
//! and of tokens, the rules on who may release them, and the transfer
//! instructions that a release yields.

pub mod api;
pub mod asset;
pub mod contract;
pub mod error;
pub mod laws;
pub mod ledger;
pub mod msg;
pub mod order;
pub mod registry;
pub mod response;
pub mod state;
pub mod transfer;
