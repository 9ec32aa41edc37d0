//! Token-weighted governance: holders of a reference fungible asset approve or
//! reject proposed value transfers through time-boxed, balance-weighted voting.
//!
//! The library is a deterministic state machine over plain values. Everything
//! the host environment supplies — the current timestamp, the calling account,
//! and the asset contract's answers to `balance_of` and `total_supply` — enters
//! as an argument, so every rule of the proposal lifecycle (creation, vote
//! casting, quorum and majority resolution, exactly-once execution) is stated
//! in contracts and proved.

pub mod governor;
pub mod laws;
pub mod ledger;
pub mod model;
pub mod store;
pub mod types;
pub mod weight;

pub use governor::Governor;
pub use types::GovernorError;
pub use types::Proposal;
pub use types::ProposalVote;
pub use types::Transfer;
pub use types::VoteType;
