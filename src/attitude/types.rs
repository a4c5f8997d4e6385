use vstd::prelude::*;

use crate::actuators::types::{zero3, zero3_spec, TruthActuatorBus};
use crate::attitude::kinedynamics::{AttitudeInput, RigidBody};
use crate::linalg::Mat3;
use crate::ode::{rk5_spec, Integrator, RK5};
use crate::sc_types::SpacecraftAttitudeArchitecture;
use crate::scalar::Scalar;

verus! {

/// True attitude: the body-to-inertial quaternion, scalar last, and the
/// body rate in rad/s. The quaternion is not renormalised by propagation.
#[derive(Clone, Copy)]
pub struct TruthAttitudeSignal<S> {
    pub q_sc_eci: [S; 4],
    pub omega_sc: [S; 3],
}

impl<S: Scalar> TruthAttitudeSignal<S> {
    /// The flat state `[q; ω]`.
    pub open spec fn state_spec(self) -> Seq<S> {
        self.q_sc_eci@ + self.omega_sc@
    }

    /// The signal that a flat state `[q; ω]` describes.
    pub open spec fn from_state_spec(x: Seq<S>) -> Self {
        TruthAttitudeSignal { q_sc_eci: [x[0], x[1], x[2], x[3]], omega_sc: [x[4], x[5], x[6]] }
    }

    /// The identity attitude at rest.
    pub open spec fn default_spec() -> Self {
        TruthAttitudeSignal {
            q_sc_eci: [S::ratio_spec(0, 1), S::ratio_spec(0, 1), S::ratio_spec(0, 1), S::ratio_spec(1, 1)],
            omega_sc: zero3_spec(),
        }
    }

    pub fn initialize(q_sc_eci0: [S; 4], omega_sc0: [S; 3]) -> (r: Self)
        ensures
            r.q_sc_eci == q_sc_eci0,
            r.omega_sc == omega_sc0,
    {
        TruthAttitudeSignal { q_sc_eci: q_sc_eci0, omega_sc: omega_sc0 }
    }

    pub fn to_state_vector(&self) -> (r: Vec<S>)
        ensures
            r@ == self.state_spec(),
            r@.len() == 7,
    {
        let q = &self.q_sc_eci;
        let w = &self.omega_sc;
        let r = vec![q[0], q[1], q[2], q[3], w[0], w[1], w[2]];
        assert(r@ =~= self.state_spec());
        r
    }

    pub fn from_state_vector(&mut self, state_vec: Vec<S>)
        requires
            state_vec@.len() == 7,
        ensures
            *final(self) == Self::from_state_spec(state_vec@),
    {
        self.q_sc_eci = [state_vec[0], state_vec[1], state_vec[2], state_vec[3]];
        self.omega_sc = [state_vec[4], state_vec[5], state_vec[6]];
    }

    /// Flattening a signal and reading it back gives the same signal.
    pub proof fn lemma_round_trip(self)
        ensures
            Self::from_state_spec(self.state_spec()) == self,
            self.state_spec().len() == 7,
    {
        let back = Self::from_state_spec(self.state_spec());
        assert(back.q_sc_eci@ =~= self.q_sc_eci@);
        assert(back.omega_sc@ =~= self.omega_sc@);
        assert(back.q_sc_eci =~= self.q_sc_eci);
        assert(back.omega_sc =~= self.omega_sc);
    }

    /// Reading a seven-element state into a signal and flattening it again
    /// gives the same state.
    pub proof fn lemma_state_round_trip(x: Seq<S>)
        requires
            x.len() == 7,
        ensures
            Self::from_state_spec(x).state_spec() == x,
    {
        assert(Self::from_state_spec(x).state_spec() =~= x);
    }
}

impl<S: Scalar> Default for TruthAttitudeSignal<S> {
    fn default() -> (r: Self)
        ensures
            r == Self::default_spec(),
    {
        TruthAttitudeSignal {
            q_sc_eci: [S::ratio(0, 1), S::ratio(0, 1), S::ratio(0, 1), S::ratio(1, 1)],
            omega_sc: zero3(),
        }
    }
}

/// diag(10, 20, 30) kg·m².
pub open spec fn default_inertia_spec<S: Scalar>() -> Mat3<S> {
    let z = S::ratio_spec(0, 1);
    Mat3 { c0: [S::ratio_spec(10, 1), z, z], c1: [z, S::ratio_spec(20, 1), z], c2: [z, z, S::ratio_spec(30, 1)] }
}

pub fn default_inertia<S: Scalar>() -> (r: Mat3<S>)
    ensures
        r == default_inertia_spec::<S>(),
{
    Mat3 {
        c0: [S::ratio(10, 1), S::ratio(0, 1), S::ratio(0, 1)],
        c1: [S::ratio(0, 1), S::ratio(20, 1), S::ratio(0, 1)],
        c2: [S::ratio(0, 1), S::ratio(0, 1), S::ratio(30, 1)],
    }
}

/// Owns the attitude signal, the six-stage integrator at the simulation
/// step, and the inertia that the rigid-body model uses.
#[derive(Clone, Copy)]
pub struct TruthAttitudeBus<S> {
    pub signal: TruthAttitudeSignal<S>,
    pub integrator: RK5<S>,
    pub inertia: Mat3<S>,
}

impl<S: Scalar> TruthAttitudeBus<S> {
    /// One step of the rigid-body model from `prev` under the applied torque
    /// of `act`, with this bus's step size and inertia, from time zero.
    pub open spec fn propagated(self, act: TruthActuatorBus<S>, prev: TruthAttitudeSignal<S>) -> TruthAttitudeSignal<S> {
        TruthAttitudeSignal::from_state_spec(
            rk5_spec(
                RigidBody,
                self.integrator.0,
                S::ratio_spec(0, 1),
                prev.state_spec(),
                AttitudeInput { torque: act.net_torques, inertia: self.inertia },
            ),
        )
    }

    pub open spec fn default_spec(sc_ts: S) -> Self {
        TruthAttitudeBus {
            signal: TruthAttitudeSignal::default_spec(),
            integrator: RK5(sc_ts),
            inertia: default_inertia_spec(),
        }
    }

    /// The identity attitude at rest, stepped by `sc_ts`, inertia
    /// diag(10, 20, 30).
    pub fn default_with_step(sc_ts: S) -> (r: Self)
        ensures
            r == Self::default_spec(sc_ts),
    {
        TruthAttitudeBus { signal: TruthAttitudeSignal::default(), integrator: RK5(sc_ts), inertia: default_inertia() }
    }

    pub fn initialize(sc_ts: S, attitude_params: SpacecraftAttitudeArchitecture<S>) -> (r: Self)
        ensures
            r.signal.q_sc_eci == attitude_params.q_sc_eci,
            r.signal.omega_sc == attitude_params.omega_sc,
            r.integrator.0 == sc_ts,
            r.inertia == attitude_params.inertia,
    {
        TruthAttitudeBus {
            signal: TruthAttitudeSignal::initialize(attitude_params.q_sc_eci, attitude_params.omega_sc),
            integrator: RK5(sc_ts),
            inertia: attitude_params.inertia,
        }
    }

    /// Overwrites this bus's signal with one step from the previous bus's
    /// signal; the integrator and the inertia stay.
    pub fn process(&mut self, actuator_dynamics: &TruthActuatorBus<S>, prev_attitude: &Self)
        ensures
            final(self).signal == old(self).propagated(*actuator_dynamics, prev_attitude.signal),
            final(self).integrator == old(self).integrator,
            final(self).inertia == old(self).inertia,
    {
        self.propagate(actuator_dynamics, &prev_attitude.signal);
    }

    fn propagate(&mut self, actuator_dynamics: &TruthActuatorBus<S>, prev_attitude: &TruthAttitudeSignal<S>)
        ensures
            final(self).signal == old(self).propagated(*actuator_dynamics, *prev_attitude),
            final(self).integrator == old(self).integrator,
            final(self).inertia == old(self).inertia,
    {
        let state0 = prev_attitude.to_state_vector();
        let inpts = AttitudeInput { torque: actuator_dynamics.net_torques, inertia: self.inertia };
        let nstate = self.integrator.integrate(&RigidBody, S::ratio(0, 1), &state0, &inpts);
        self.signal.from_state_vector(nstate);
    }
}

impl<S: Scalar> Default for TruthAttitudeBus<S> {
    /// The identity attitude at rest, stepped by 0.1 s.
    fn default() -> (r: Self)
        ensures
            r == Self::default_spec(S::ratio_spec(1, 10)),
    {
        Self::default_with_step(S::ratio(1, 10))
    }
}

/// Flexible-body state. No multibody dynamics is modelled yet.
#[derive(Clone, Copy, Debug, Default, PartialEq, Eq)]
pub struct TruthMultibodyBus {}

impl TruthMultibodyBus {
    pub fn process<S: Scalar>(actuator_dynamics: &TruthActuatorBus<S>, prev_multibody: &Self) -> (r: Self)
        ensures
            r == (TruthMultibodyBus {}),
    {
        TruthMultibodyBus {}
    }
}

} // verus!
