//! Verified core of a GPU-driven life simulator.
//!
//! The grid logic (toroidal neighbourhood, the life rule, random seeding),
//! the ping-pong binding-table bookkeeping, the fixed-cadence simulation
//! clock and the frame-orchestration decisions live here with proofs; GPU
//! and windowing plumbing stays outside the library and only carries out the
//! decisions these modules return.

pub mod binding;
pub mod clock;
pub mod geometry;
pub mod grid;
pub mod orchestrator;
pub mod random;
