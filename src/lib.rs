//! Slot reservation and valet hand-off engine for a parking service.
//!
//! The library holds the booking lifecycle state machine, the hourly pricing
//! rule, the per-slot calendar that rules out double booking, the valet
//! dispatcher and the append-only booking timeline.
use vstd::prelude::*;

pub mod status;
pub mod pricing;
pub mod model;
pub mod engine;
pub mod schema;

verus! {

} // verus!
