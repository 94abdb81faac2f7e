//! A membership-governance engine: a fixed set of shareholders propose
//! actions, vote on them with weighted token holdings, and — once a proposal
//! clears its deadline, a quorum, and a majority test — trigger execution of
//! an ordered batch of external actions exactly once.
//!
//! The engine is a pure state machine over plain values. Everything a host
//! environment supplies from outside — the ledger clock, the live token
//! balance of a voter, and the dispatch of execution instructions to their
//! target contracts — is handed in as an argument by the caller, so the
//! whole decision logic is verified here and the host glue stays outside.

pub mod contract;
pub mod core_state;
pub mod demo;
pub mod errors;
pub mod laws;
pub mod model;
pub mod proposal;
