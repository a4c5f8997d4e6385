//! The spacecraft's state record and its initial-condition parameters.
use vstd::prelude::*;

use crate::actuators::types::{zero3, zero3_spec, TruthActuatorBus};
use crate::attitude::types::{default_inertia, default_inertia_spec, TruthAttitudeBus, TruthMultibodyBus};
use crate::ephemeris::types::{default_ephemeris, default_ephemeris_spec, TruthEphemerisBus};
use crate::linalg::Mat3;
use crate::scalar::Scalar;
use crate::sensors::types::TruthSensorBus;

verus! {

/// One complete truth state. The plant keeps two of them, previous and
/// current, and swaps their roles every tick.
#[derive(Clone, Copy)]
pub struct SpacecraftState<S> {
    pub truth_actuator_bus: TruthActuatorBus<S>,
    pub truth_ephemeris: TruthEphemerisBus<S>,
    pub truth_attitude: TruthAttitudeBus<S>,
    pub truth_multibody: TruthMultibodyBus,
    pub truth_sensor_bus: TruthSensorBus,
}

impl<S: Scalar> SpacecraftState<S> {
    /// Every bus at its default, each integrator stepping by `sc_ts`.
    pub open spec fn default_spec(sc_ts: S) -> Self {
        SpacecraftState {
            truth_actuator_bus: TruthActuatorBus::zero_spec(),
            truth_ephemeris: TruthEphemerisBus { signal: default_ephemeris_spec(), integrator: crate::ode::RK5(sc_ts) },
            truth_attitude: TruthAttitudeBus::default_spec(sc_ts),
            truth_multibody: TruthMultibodyBus {},
            truth_sensor_bus: TruthSensorBus {},
        }
    }

    /// A state made of the buses given, and of the defaults for `sc_ts`
    /// where none is given.
    pub fn initialize(
        sc_ts: S,
        initial_actuator: Option<TruthActuatorBus<S>>,
        initial_ephem: Option<TruthEphemerisBus<S>>,
        initial_attitude: Option<TruthAttitudeBus<S>>,
        initial_multibody: Option<TruthMultibodyBus>,
        initial_sensor: Option<TruthSensorBus>,
    ) -> (r: Self)
        ensures
            r.truth_actuator_bus == (match initial_actuator {
                Some(b) => b,
                None => Self::default_spec(sc_ts).truth_actuator_bus,
            }),
            r.truth_ephemeris == (match initial_ephem {
                Some(b) => b,
                None => Self::default_spec(sc_ts).truth_ephemeris,
            }),
            r.truth_attitude == (match initial_attitude {
                Some(b) => b,
                None => Self::default_spec(sc_ts).truth_attitude,
            }),
            r.truth_multibody == (match initial_multibody {
                Some(b) => b,
                None => TruthMultibodyBus {},
            }),
            r.truth_sensor_bus == (match initial_sensor {
                Some(b) => b,
                None => TruthSensorBus {},
            }),
    {
        let truth_actuator_bus = match initial_actuator {
            Some(b) => b,
            None => TruthActuatorBus::default(),
        };
        let truth_ephemeris = match initial_ephem {
            Some(b) => b,
            None => TruthEphemerisBus::initialize(sc_ts, default_ephemeris()),
        };
        let truth_attitude = match initial_attitude {
            Some(b) => b,
            None => TruthAttitudeBus::default_with_step(sc_ts),
        };
        let truth_multibody = match initial_multibody {
            Some(b) => b,
            None => TruthMultibodyBus {},
        };
        let truth_sensor_bus = match initial_sensor {
            Some(b) => b,
            None => TruthSensorBus {},
        };
        SpacecraftState { truth_actuator_bus, truth_ephemeris, truth_attitude, truth_multibody, truth_sensor_bus }
    }
}

impl<S: Scalar> Default for SpacecraftState<S> {
    /// Every bus at its default, stepped by 0.1 s.
    fn default() -> (r: Self)
        ensures
            r == Self::default_spec(S::ratio_spec(1, 10)),
    {
        Self::initialize(S::ratio(1, 10), None, None, None, None, None)
    }
}

/// Marker for the parameter records of the subsystems.
pub trait SpacecraftParam {

}

/// The initial-condition bundle, read once when the plant is built.
#[derive(Clone, Copy)]
pub struct SpacecraftParamBus<S> {
    pub sc_actuators: SpacecraftActuatorArchitecture,
    pub sc_ephemeris: SpacecraftEphemerisArchitecture<S>,
    pub sc_attitude: SpacecraftAttitudeArchitecture<S>,
    pub sc_multibody: SpacecraftMultibodyArchitecture<S>,
    pub sc_sensors: SpacecraftSensorArchitecture,
}

impl<S: Scalar> SpacecraftParamBus<S> {
    pub fn initialize(
        sc_actuators: SpacecraftActuatorArchitecture,
        sc_ephemeris: SpacecraftEphemerisArchitecture<S>,
        sc_attitude: SpacecraftAttitudeArchitecture<S>,
        sc_multibody: SpacecraftMultibodyArchitecture<S>,
        sc_sensors: SpacecraftSensorArchitecture,
    ) -> (r: Self)
        ensures
            r == (SpacecraftParamBus { sc_actuators, sc_ephemeris, sc_attitude, sc_multibody, sc_sensors }),
    {
        SpacecraftParamBus { sc_actuators, sc_ephemeris, sc_attitude, sc_multibody, sc_sensors }
    }
}

#[derive(Clone, Copy, Debug, Default, PartialEq, Eq)]
pub struct SpacecraftActuatorArchitecture {}

impl SpacecraftParam for SpacecraftActuatorArchitecture {

}

/// Initial inertial position (m) and velocity (m/s).
#[derive(Clone, Copy)]
pub struct SpacecraftEphemerisArchitecture<S> {
    pub r_sc_eci: [S; 3],
    pub v_sc_eci: [S; 3],
}

impl<S: Scalar> SpacecraftParam for SpacecraftEphemerisArchitecture<S> {

}

impl<S: Scalar> SpacecraftEphemerisArchitecture<S> {
    pub fn initialize(r_sc: [S; 3], v_sc: [S; 3]) -> (r: Self)
        ensures
            r.r_sc_eci == r_sc,
            r.v_sc_eci == v_sc,
    {
        SpacecraftEphemerisArchitecture { r_sc_eci: r_sc, v_sc_eci: v_sc }
    }

    /// The default circular orbit, 500 km up.
    pub fn default_orbit() -> (r: Self)
        ensures
            r.r_sc_eci == default_ephemeris_spec::<S>().r_sc_eci,
            r.v_sc_eci == default_ephemeris_spec::<S>().v_sc_eci,
    {
        let e = default_ephemeris::<S>();
        SpacecraftEphemerisArchitecture { r_sc_eci: e.r_sc_eci, v_sc_eci: e.v_sc_eci }
    }
}

/// Initial attitude, body rate and acceleration, and the inertia matrix.
#[derive(Clone, Copy)]
pub struct SpacecraftAttitudeArchitecture<S> {
    pub q_sc_eci: [S; 4],
    pub omega_sc: [S; 3],
    pub alpha_sc: [S; 3],
    pub inertia: Mat3<S>,
}

impl<S: Scalar> SpacecraftParam for SpacecraftAttitudeArchitecture<S> {

}

impl<S: Scalar> SpacecraftAttitudeArchitecture<S> {
    /// The given attitude and rate; no acceleration; inertia diag(10, 20, 30).
    pub fn initialize(q_sc_eci0: [S; 4], omega_sc0: [S; 3]) -> (r: Self)
        ensures
            r.q_sc_eci == q_sc_eci0,
            r.omega_sc == omega_sc0,
            r.alpha_sc == zero3_spec::<S>(),
            r.inertia == default_inertia_spec::<S>(),
    {
        SpacecraftAttitudeArchitecture {
            q_sc_eci: q_sc_eci0,
            omega_sc: omega_sc0,
            alpha_sc: zero3(),
            inertia: default_inertia(),
        }
    }

    /// The given attitude, rate and inertia; no acceleration.
    pub fn with_inertia(q_sc_eci0: [S; 4], omega_sc0: [S; 3], inertia: Mat3<S>) -> (r: Self)
        ensures
            r.q_sc_eci == q_sc_eci0,
            r.omega_sc == omega_sc0,
            r.alpha_sc == zero3_spec::<S>(),
            r.inertia == inertia,
    {
        SpacecraftAttitudeArchitecture { q_sc_eci: q_sc_eci0, omega_sc: omega_sc0, alpha_sc: zero3(), inertia }
    }
}

/// Multibody parameters.
#[derive(Clone, Copy)]
pub struct SpacecraftMultibodyArchitecture<S> {
    pub j_multibody: [S; 3],
}

impl<S: Scalar> SpacecraftParam for SpacecraftMultibodyArchitecture<S> {

}

impl<S: Scalar> SpacecraftMultibodyArchitecture<S> {
    pub fn initialize(j_multibody: [S; 3]) -> (r: Self)
        ensures
            r.j_multibody == j_multibody,
    {
        SpacecraftMultibodyArchitecture { j_multibody }
    }
}

#[derive(Clone, Copy, Debug, Default, PartialEq, Eq)]
pub struct SpacecraftSensorArchitecture {}

impl SpacecraftParam for SpacecraftSensorArchitecture {

}

} // verus!
