//! Actuator response: the forces and torques the vehicle feels.
pub mod types;
