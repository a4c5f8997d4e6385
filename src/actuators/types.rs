use vstd::prelude::*;

use crate::scalar::Scalar;

verus! {

/// Commanded actuator outputs, handed in by flight software each tick. The
/// plant does not look inside: it passes the bus on to the actuator
/// response and the sensor synthesis.
#[derive(Clone, Copy, Debug, Default)]
pub struct ActuatorBus {}

/// Net applied force (inertial frame, N) and torque (body frame, N·m).
#[derive(Clone, Copy)]
pub struct TruthActuatorBus<S> {
    pub net_forces: [S; 3],
    pub net_torques: [S; 3],
}

pub open spec fn zero3_spec<S: Scalar>() -> [S; 3] {
    [S::ratio_spec(0, 1), S::ratio_spec(0, 1), S::ratio_spec(0, 1)]
}

pub fn zero3<S: Scalar>() -> (r: [S; 3])
    ensures
        r == zero3_spec::<S>(),
{
    [S::ratio(0, 1), S::ratio(0, 1), S::ratio(0, 1)]
}

impl<S: Scalar> TruthActuatorBus<S> {
    /// No force and no torque.
    pub open spec fn zero_spec() -> Self {
        TruthActuatorBus { net_forces: zero3_spec(), net_torques: zero3_spec() }
    }

    /// The actuator response to `actuator_cmd`. No actuator is modelled yet:
    /// the response is no force and no torque, whatever the command.
    pub fn process(actuator_cmd: &ActuatorBus, prev_actuator: &Self) -> (r: Self)
        ensures
            r == Self::zero_spec(),
    {
        Self::default()
    }
}

impl<S: Scalar> Default for TruthActuatorBus<S> {
    fn default() -> (r: Self)
        ensures
            r == Self::zero_spec(),
    {
        TruthActuatorBus { net_forces: zero3(), net_torques: zero3() }
    }
}

} // verus!
