//! Verified control core for a single-stage HVAC controller.
//!
//! The controller decides, on every update, which single conditioning
//! service (heat or cool, never both) is energized and whether the
//! air-circulation fan runs, while honoring configurable minimum run-time
//! and minimum recovery-time constraints per service. The caller supplies
//! a non-decreasing elapsed-seconds signal and demand calls; every
//! mutating operation returns a snapshot of the externally visible state.

pub mod controller;
pub mod laws;
pub mod timing;

pub use controller::Hvac;
pub use controller::HvacService;
pub use controller::HvacState;
