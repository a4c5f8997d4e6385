use vstd::prelude::*;

use crate::actuators::types::{ActuatorBus, TruthActuatorBus};
use crate::attitude::types::{TruthAttitudeBus, TruthMultibodyBus};
use crate::ephemeris::types::TruthEphemerisBus;
use crate::scalar::Scalar;

verus! {

/// Raw sensor measurements handed back to flight software each tick. No
/// sensor is modelled yet, so it carries nothing.
#[derive(Clone, Copy, Debug, Default, PartialEq, Eq)]
pub struct RawSensorBus {}

/// The sensor model's own state, kept from tick to tick.
#[derive(Clone, Copy, Debug, Default, PartialEq, Eq)]
pub struct TruthSensorBus {}

impl TruthSensorBus {
    /// Synthesises this tick's sensor state from every current output and
    /// the previous sensor state. No sensor is modelled yet.
    pub fn process<S: Scalar>(
        actuator_cmd: &ActuatorBus,
        actuator_dynamics: &TruthActuatorBus<S>,
        ephemeris_bus: &TruthEphemerisBus<S>,
        attitude_bus: &TruthAttitudeBus<S>,
        multibody_bus: &TruthMultibodyBus,
        prev_sensor: &Self,
    ) -> (r: Self)
        ensures
            r == (TruthSensorBus {}),
    {
        TruthSensorBus {}
    }

    /// The measurements as flight software receives them.
    pub fn to_raw_bus(&self) -> (r: RawSensorBus)
        ensures
            r == (RawSensorBus {}),
    {
        RawSensorBus {}
    }
}

} // verus!
