//! Supervision engine for a single long-running VPN client process.
//!
//! The library holds the verified core of a watchdog: the lifecycle model of
//! the supervised child, the heuristic classifiers over its captured output,
//! the network-reachability decision, and the control-loop state machine that
//! turns timing, process health and network health into respawn and interrupt
//! decisions. The unverified shell around it performs the actual process and
//! network operations and feeds their outcomes back in as plain values.

pub mod control;
pub mod daemon;
pub mod errors;
pub mod logger;
pub mod reachability;
pub mod rng;
pub mod text;

use vstd::prelude::*;

verus! {

} // verus!
