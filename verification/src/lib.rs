//! Discrete core of an interactive particle sandbox: spawn throttling,
//! the particle store, the pairwise impulse sweep, camera input and the
//! diagnostics cadence, each with a machine-checked contract.

pub mod cadence;
pub mod camera;
pub mod diagnostics;
pub mod engine;
pub mod spawn;
pub mod store;
pub mod timer;
