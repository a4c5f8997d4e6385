//! Truth physics plant for spacecraft flight-software testing: fixed-step
//! integrators, the attitude and orbital derivative models they drive, and
//! the double-buffered loop that advances them once per tick.
use vstd::prelude::*;

pub mod actuators;
pub mod attitude;
pub mod ephemeris;
pub mod linalg;
pub mod ode;
pub mod scalar;
pub mod sc_types;
pub mod sensors;
pub mod types;

use crate::actuators::types::{zero3_spec, ActuatorBus, TruthActuatorBus};
use crate::attitude::kinedynamics::{AttitudeInput, RigidBody};
use crate::attitude::types::{TruthAttitudeBus, TruthAttitudeSignal, TruthMultibodyBus};
use crate::ephemeris::kinedynamics::TwoBody;
use crate::ephemeris::types::{TruthEphemerisBus, TruthEphemerisSignal};
use crate::linalg::{det, det_spec, Mat3};
use crate::ode::rk5_spec;
use crate::sc_types::{SpacecraftParamBus, SpacecraftState};
use crate::scalar::Scalar;
use crate::sensors::types::{RawSensorBus, TruthSensorBus};

verus! {

/// Why a plant cannot be built from a configuration.
#[derive(Clone, Copy, Debug, PartialEq, Eq)]
pub enum ConfigError {
    /// The simulation step is zero or negative.
    NonPositiveStep,
    /// The inertia matrix has a zero determinant.
    SingularInertia,
    /// A leading principal minor of the inertia matrix is not positive.
    NonPositiveDefiniteInertia,
}

/// The first two leading principal minors of `m`; the third is its
/// determinant.
pub open spec fn minor1_spec<S: Scalar>(m: Mat3<S>) -> S {
    m.c0[0]
}

pub open spec fn minor2_spec<S: Scalar>(m: Mat3<S>) -> S {
    S::sub_spec(S::mul_spec(m.c0[0], m.c1[1]), S::mul_spec(m.c1[0], m.c0[1]))
}

/// The truth plant: the parameters it was built from, simulated time, the
/// fixed step, and the two state buffers that swap roles every tick.
#[derive(Clone, Copy)]
pub struct Spacecraft<S> {
    pub sim_time: S,
    pub ts: S,
    pub sc_param_bus: SpacecraftParamBus<S>,
    pub prev_sc_state: SpacecraftState<S>,
    pub curr_sc_state: SpacecraftState<S>,
}

/// Every integrator of a state steps by `ts`, and its attitude bus uses
/// `params`' inertia.
pub open spec fn state_wf<S: Scalar>(st: SpacecraftState<S>, ts: S, params: SpacecraftParamBus<S>) -> bool {
    &&& st.truth_ephemeris.integrator.0 == ts
    &&& st.truth_attitude.integrator.0 == ts
    &&& st.truth_attitude.inertia == params.sc_attitude.inertia
}

/// `Ok` exactly where the step is positive and the inertia invertible with
/// positive leading principal minors.
pub open spec fn config_check_spec<S: Scalar>(sc_ts: S, params: SpacecraftParamBus<S>) -> Result<(), ConfigError> {
    if !S::is_positive_spec(sc_ts) {
        Err(ConfigError::NonPositiveStep)
    } else if S::is_zero_spec(det_spec(params.sc_attitude.inertia)) {
        Err(ConfigError::SingularInertia)
    } else if !(S::is_positive_spec(minor1_spec(params.sc_attitude.inertia)) && S::is_positive_spec(
        minor2_spec(params.sc_attitude.inertia),
    ) && S::is_positive_spec(det_spec(params.sc_attitude.inertia))) {
        Err(ConfigError::NonPositiveDefiniteInertia)
    } else {
        Ok(())
    }
}

/// Checks a configuration: the step must be positive and the inertia
/// invertible and positive definite (all leading principal minors positive).
pub fn check_config<S: Scalar>(sc_ts: S, params: &SpacecraftParamBus<S>) -> (r: Result<(), ConfigError>)
    ensures
        r == config_check_spec(sc_ts, *params),
{
    if !sc_ts.is_positive() {
        Err(ConfigError::NonPositiveStep)
    } else {
        let m = &params.sc_attitude.inertia;
        let d = det(m);
        if d.is_zero() {
            return Err(ConfigError::SingularInertia);
        }
        let m2 = m.c0[0].mul(m.c1[1]).sub(m.c1[0].mul(m.c0[1]));
        if !(m.c0[0].is_positive() && m2.is_positive() && d.is_positive()) {
            return Err(ConfigError::NonPositiveDefiniteInertia);
        }
        Ok(())
    }
}

impl<S: Scalar> Spacecraft<S> {
    pub open spec fn wf(self) -> bool {
        &&& config_check_spec(self.ts, self.sc_param_bus) is Ok
        &&& state_wf(self.prev_sc_state, self.ts, self.sc_param_bus)
        &&& state_wf(self.curr_sc_state, self.ts, self.sc_param_bus)
    }

    /// The plant right after construction: time zero; the current buffer
    /// holds the initial attitude and orbit of `params`, the previous one
    /// the defaults with `params`' inertia.
    pub open spec fn initial_spec(sc_ts: S, params: SpacecraftParamBus<S>) -> Self {
        let defaults = SpacecraftState::default_spec(sc_ts);
        let att = TruthAttitudeBus { inertia: params.sc_attitude.inertia, ..defaults.truth_attitude };
        Spacecraft {
            sim_time: S::ratio_spec(0, 1),
            ts: sc_ts,
            sc_param_bus: params,
            prev_sc_state: SpacecraftState { truth_attitude: att, ..defaults },
            curr_sc_state: SpacecraftState {
                truth_ephemeris: TruthEphemerisBus {
                    signal: TruthEphemerisSignal {
                        r_sc_eci: params.sc_ephemeris.r_sc_eci,
                        v_sc_eci: params.sc_ephemeris.v_sc_eci,
                    },
                    ..defaults.truth_ephemeris
                },
                truth_attitude: TruthAttitudeBus {
                    signal: TruthAttitudeSignal {
                        q_sc_eci: params.sc_attitude.q_sc_eci,
                        omega_sc: params.sc_attitude.omega_sc,
                    },
                    ..att
                },
                ..defaults
            },
        }
    }

    /// One tick. The buffers swap: the old current becomes the previous
    /// state, and the old previous buffer is overwritten as the new current
    /// one. In it, in order: the actuator response to the command; the orbit
    /// and the attitude, each one step on from the previous state's signal
    /// under the new actuator response; the multibody and the sensor state.
    /// Time advances by one step.
    pub open spec fn tick_spec(self) -> Self {
        let prev = self.curr_sc_state;
        let buf = self.prev_sc_state;
        let act = TruthActuatorBus::zero_spec();
        Spacecraft {
            sim_time: S::add_spec(self.sim_time, self.ts),
            ts: self.ts,
            sc_param_bus: self.sc_param_bus,
            prev_sc_state: prev,
            curr_sc_state: SpacecraftState {
                truth_actuator_bus: act,
                truth_ephemeris: TruthEphemerisBus {
                    signal: buf.truth_ephemeris.propagated(act, prev.truth_ephemeris.signal),
                    ..buf.truth_ephemeris
                },
                truth_attitude: TruthAttitudeBus {
                    signal: buf.truth_attitude.propagated(act, prev.truth_attitude.signal),
                    ..buf.truth_attitude
                },
                truth_multibody: TruthMultibodyBus {},
                truth_sensor_bus: TruthSensorBus {},
            },
        }
    }

    /// The plant after `n` ticks.
    pub open spec fn run_spec(self, n: nat) -> Self
        decreases n,
    {
        if n == 0 {
            self
        } else {
            self.run_spec((n - 1) as nat).tick_spec()
        }
    }

    /// Builds the plant from a step size and the parameter bundle, or says
    /// why the configuration is unusable.
    pub fn initialize(sc_ts: S, param_bus: SpacecraftParamBus<S>) -> (r: Result<Self, ConfigError>)
        ensures
            match config_check_spec(sc_ts, param_bus) {
                Err(e) => r == Err::<Self, ConfigError>(e),
                Ok(_) => r == Ok::<Self, ConfigError>(Self::initial_spec(sc_ts, param_bus)),
            },
            r is Ok ==> r->Ok_0.wf(),
    {
        match check_config(sc_ts, &param_bus) {
            Err(e) => Err(e),
            Ok(()) => {
                let mut defaults = SpacecraftState::initialize(sc_ts, None, None, None, None, None);
                defaults.truth_attitude.inertia = param_bus.sc_attitude.inertia;
                let att_bus = TruthAttitudeBus::initialize(sc_ts, param_bus.sc_attitude);
                let ephem_bus = TruthEphemerisBus::initialize(
                    sc_ts,
                    TruthEphemerisSignal::initialize(param_bus.sc_ephemeris.r_sc_eci, param_bus.sc_ephemeris.v_sc_eci),
                );
                let curr = SpacecraftState::initialize(
                    sc_ts,
                    None,
                    Some(ephem_bus),
                    Some(att_bus),
                    None,
                    None,
                );
                Ok(Spacecraft {
                    sim_time: S::ratio(0, 1),
                    ts: sc_ts,
                    sc_param_bus: param_bus,
                    prev_sc_state: defaults,
                    curr_sc_state: curr,
                })
            },
        }
    }

    /// The sensor measurements before the first tick.
    pub fn initial_state(&self) -> (r: RawSensorBus)
        ensures
            r == (RawSensorBus {}),
    {
        RawSensorBus {}
    }

    /// Runs one tick (see `tick_spec`) and returns the synthesised sensor
    /// measurements.
    pub fn simulate_plant(&mut self, actuator_commands: &ActuatorBus) -> (r: RawSensorBus)
        requires
            old(self).wf(),
        ensures
            *final(self) == old(self).tick_spec(),
            final(self).wf(),
            r == (RawSensorBus {}),
    {
        std::mem::swap(&mut self.curr_sc_state, &mut self.prev_sc_state);

        self.curr_sc_state.truth_actuator_bus = TruthActuatorBus::process(
            actuator_commands,
            &self.prev_sc_state.truth_actuator_bus,
        );

        self.curr_sc_state.truth_ephemeris.process(
            &self.curr_sc_state.truth_actuator_bus,
            &self.prev_sc_state.truth_ephemeris,
        );

        self.curr_sc_state.truth_attitude.process(
            &self.curr_sc_state.truth_actuator_bus,
            &self.prev_sc_state.truth_attitude,
        );

        self.curr_sc_state.truth_multibody = TruthMultibodyBus::process(
            &self.curr_sc_state.truth_actuator_bus,
            &self.prev_sc_state.truth_multibody,
        );

        self.curr_sc_state.truth_sensor_bus = TruthSensorBus::process(
            actuator_commands,
            &self.curr_sc_state.truth_actuator_bus,
            &self.curr_sc_state.truth_ephemeris,
            &self.curr_sc_state.truth_attitude,
            &self.curr_sc_state.truth_multibody,
            &self.prev_sc_state.truth_sensor_bus,
        );

        self.sim_time = self.sim_time.add(self.ts);

        self.curr_sc_state.truth_sensor_bus.to_raw_bus()
    }
}

/// Double-buffer integrity: a tick leaves in the previous buffer exactly
/// what the current buffer held before it, and steps the new orbit and
/// attitude from those signals with the plant's step size, so the buffer
/// being overwritten is never read.
pub proof fn lemma_double_buffer<S: Scalar>(sc: Spacecraft<S>)
    requires
        sc.wf(),
    ensures
        sc.tick_spec().prev_sc_state == sc.curr_sc_state,
        sc.tick_spec().curr_sc_state.truth_ephemeris.signal == TruthEphemerisSignal::from_state_spec(
            rk5_spec(
                TwoBody,
                sc.ts,
                S::ratio_spec(0, 1),
                sc.curr_sc_state.truth_ephemeris.signal.state_spec(),
                zero3_spec::<S>(),
            ),
        ),
        sc.tick_spec().curr_sc_state.truth_attitude.signal == TruthAttitudeSignal::from_state_spec(
            rk5_spec(
                RigidBody,
                sc.ts,
                S::ratio_spec(0, 1),
                sc.curr_sc_state.truth_attitude.signal.state_spec(),
                AttitudeInput { torque: zero3_spec::<S>(), inertia: sc.sc_param_bus.sc_attitude.inertia },
            ),
        ),
{
}

/// After tick `n + 1` the previous buffer equals the current buffer of tick
/// `n`, for every `n`.
pub proof fn lemma_previous_is_last_current<S: Scalar>(sc: Spacecraft<S>, n: nat)
    ensures
        sc.run_spec(n + 1).prev_sc_state == sc.run_spec(n).curr_sc_state,
{
}

/// Determinism: two plants built from the same step size and parameters
/// are in equal states after every number of ticks, so every tick returns
/// the same measurements in both.
pub proof fn lemma_deterministic<S: Scalar>(
    ts_a: S,
    params_a: SpacecraftParamBus<S>,
    ts_b: S,
    params_b: SpacecraftParamBus<S>,
    n: nat,
)
    requires
        ts_a == ts_b,
        params_a == params_b,
    ensures
        Spacecraft::initial_spec(ts_a, params_a).run_spec(n) == Spacecraft::initial_spec(ts_b, params_b).run_spec(n),
{
}

/// Ticking keeps a plant well formed.
pub proof fn lemma_run_wf<S: Scalar>(sc: Spacecraft<S>, n: nat)
    requires
        sc.wf(),
    ensures
        sc.run_spec(n).wf(),
    decreases n,
{
    if n > 0 {
        lemma_run_wf(sc, (n - 1) as nat);
    }
}

} // verus!
