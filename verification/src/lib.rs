//! A Solana JSON-RPC client for Internet Computer canisters: the commitment
//! model, the HTTP provider, and the decisions the client takes on the replies
//! of the RPC node, each with its contract.

pub mod commitment;
pub mod error;
pub mod text;
pub mod keys;
pub mod provider;
pub mod confirm;
pub mod config;
pub mod client;
pub mod accounts;
pub mod instruction;
pub mod account;
