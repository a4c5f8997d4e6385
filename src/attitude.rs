//! Rigid-body attitude: its derivative model and its propagation bus.
pub mod kinedynamics;
pub mod types;
