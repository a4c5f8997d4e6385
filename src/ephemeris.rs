//! Two-body orbital motion: constants, derivative model and propagation bus.
pub mod consts;
pub mod kinedynamics;
pub mod types;
