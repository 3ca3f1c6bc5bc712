//! State machine of a cross-chain token bridge: per-token configuration,
//! delayed fee changes, daily claim limits, replay protection and the
//! request / receipt transfer protocol, with its contracts proved by Verus.
use vstd::prelude::*;

pub mod address;
pub mod error;
pub mod fee;
pub mod laws;
pub mod ledger;
pub mod model;
pub mod processor;
pub mod state;

verus! {

} // verus!
