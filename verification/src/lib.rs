//! Aegis Fabric: operational memory for autonomous fleets.
//!
//! The verified core of the runtime: the deterministic random stream that makes
//! every incident a pure function of its seed, the domain model, the discrete
//! state machine of the fleet (beacon, robots, danger and recovery latches),
//! the closed-loop controller, the policy gate and the append-only event log.

pub mod rng;
pub mod model;
pub mod sim;
pub mod decision;
pub mod event;
pub mod replay;
