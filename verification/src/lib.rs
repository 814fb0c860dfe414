//! A weighted-membership governance engine: a fixed group of voters, each
//! holding a voting weight, proposes typed actions (token transfers and
//! membership changes), votes on them under a configurable threshold rule,
//! and executes an approved action exactly once.
//!
//! The engine is a pure state machine: every entry point takes the whole
//! governance state and the ambient block information as plain values, and
//! either returns an error leaving the state untouched, or applies all of
//! its writes together. Hosting code is expected to persist the state and
//! to dispatch the token-transfer instructions that execution emits.

pub mod contract;
pub mod error;
pub mod execute;
pub mod expiration;
pub mod minting;
pub mod msg;
pub mod order;
pub mod proposal;
pub mod query;
pub mod state;
pub mod threshold;
pub mod voters;
