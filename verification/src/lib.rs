//! Decision logic of the SNS testing tool and its helpers: planning and driving an SNS
//! decentralization swap to completion, polling proposals until they execute, upvoting
//! proposals, locating SNSes by name, building the proposals the scenarios submit, and the
//! address arithmetic of the wasm-memory fault handler.
//!
//! Every remote call, every await and every signal-handling detail is left to the caller:
//! the long-running procedures are state machines that name the next call to make and
//! consume its outcome.

pub mod agents;
pub mod ids;
pub mod memory_fault;
pub mod proposals;
pub mod cli;
pub mod sns;
pub mod swap;
pub mod upvote;
