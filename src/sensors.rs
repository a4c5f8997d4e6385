//! Sensor synthesis from the truth state.
pub mod types;
