//! A governance-voting proxy engine.
//!
//! The library is the decision core of a proxy that watches a remote
//! governance registry for new proposals, schedules a wake-up shortly
//! before each proposal's voting deadline, aggregates the ballots of an
//! operator council against a quorum threshold, and records the outcome
//! of every watched proposal in an append-only history.
//!
//! All remote calls (proposal listings, vote casting, ledger transfers)
//! are suspension points performed by an unverified driver around this
//! library; the library itself is a state machine over plain values whose
//! transitions are verified. The driver hands events in (a page of
//! proposals, a live proposal record, the outcome of a cast) and performs
//! the actions the library decides on (arm or cancel a timer, make a
//! remote call described by a plan).

pub mod types;
pub mod timers;
pub mod seqs;
pub mod state;
pub mod canister;
pub mod proposals;
pub mod laws;
