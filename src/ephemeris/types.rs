use vstd::prelude::*;

use crate::actuators::types::TruthActuatorBus;
use crate::ephemeris::consts::{mu, mu_spec, re, re_spec};
use crate::ephemeris::kinedynamics::TwoBody;
use crate::ode::{rk5_spec, Integrator, RK5};
use crate::scalar::Scalar;

verus! {

/// True inertial position (m) and velocity (m/s).
#[derive(Clone, Copy)]
pub struct TruthEphemerisSignal<S> {
    pub r_sc_eci: [S; 3],
    pub v_sc_eci: [S; 3],
}

impl<S: Scalar> TruthEphemerisSignal<S> {
    /// The flat state `[r; v]`.
    pub open spec fn state_spec(self) -> Seq<S> {
        self.r_sc_eci@ + self.v_sc_eci@
    }

    /// The signal that a flat state `[r; v]` describes.
    pub open spec fn from_state_spec(x: Seq<S>) -> Self {
        TruthEphemerisSignal { r_sc_eci: [x[0], x[1], x[2]], v_sc_eci: [x[3], x[4], x[5]] }
    }

    pub fn initialize(r_sc_eci0: [S; 3], v_sc_eci0: [S; 3]) -> (r: Self)
        ensures
            r.r_sc_eci == r_sc_eci0,
            r.v_sc_eci == v_sc_eci0,
    {
        TruthEphemerisSignal { r_sc_eci: r_sc_eci0, v_sc_eci: v_sc_eci0 }
    }

    pub fn to_state_vector(&self) -> (r: Vec<S>)
        ensures
            r@ == self.state_spec(),
            r@.len() == 6,
    {
        let p = &self.r_sc_eci;
        let v = &self.v_sc_eci;
        let r = vec![p[0], p[1], p[2], v[0], v[1], v[2]];
        assert(r@ =~= self.state_spec());
        r
    }

    pub fn from_state_vector(&mut self, state_vec: Vec<S>)
        requires
            state_vec@.len() == 6,
        ensures
            *final(self) == Self::from_state_spec(state_vec@),
    {
        self.r_sc_eci = [state_vec[0], state_vec[1], state_vec[2]];
        self.v_sc_eci = [state_vec[3], state_vec[4], state_vec[5]];
    }

    /// Flattening a signal and reading it back gives the same signal.
    pub proof fn lemma_round_trip(self)
        ensures
            Self::from_state_spec(self.state_spec()) == self,
            self.state_spec().len() == 6,
    {
        let back = Self::from_state_spec(self.state_spec());
        assert(back.r_sc_eci@ =~= self.r_sc_eci@);
        assert(back.v_sc_eci@ =~= self.v_sc_eci@);
        assert(back.r_sc_eci =~= self.r_sc_eci);
        assert(back.v_sc_eci =~= self.v_sc_eci);
    }

    /// Reading a six-element state into a signal and flattening it again
    /// gives the same state.
    pub proof fn lemma_state_round_trip(x: Seq<S>)
        requires
            x.len() == 6,
        ensures
            Self::from_state_spec(x).state_spec() == x,
    {
        assert(Self::from_state_spec(x).state_spec() =~= x);
    }
}

/// The initial altitude of the default orbit, m.
pub const DEFAULT_ALTITUDE_M: i64 = 500000;

/// Radius of the default circular orbit: Earth's radius plus the default
/// altitude.
pub open spec fn default_radius_spec<S: Scalar>() -> S {
    S::add_spec(re_spec::<S>(), S::ratio_spec(DEFAULT_ALTITUDE_M, 1))
}

/// A circular equatorial orbit: `r = [a, 0, 0]`, `v = [0, √(μ/a), 0]`.
pub open spec fn default_ephemeris_spec<S: Scalar>() -> TruthEphemerisSignal<S> {
    let a = default_radius_spec::<S>();
    let z = S::ratio_spec(0, 1);
    TruthEphemerisSignal { r_sc_eci: [a, z, z], v_sc_eci: [z, S::sqrt_spec(S::div_spec(mu_spec::<S>(), a)), z] }
}

pub fn default_ephemeris<S: Scalar>() -> (r: TruthEphemerisSignal<S>)
    ensures
        r == default_ephemeris_spec::<S>(),
{
    let a = re::<S>().add(S::ratio(DEFAULT_ALTITUDE_M, 1));
    let z = S::ratio(0, 1);
    TruthEphemerisSignal { r_sc_eci: [a, z, z], v_sc_eci: [z, mu::<S>().div(a).sqrt(), z] }
}

impl<S: Scalar> Default for TruthEphemerisSignal<S> {
    /// The default circular orbit.
    fn default() -> (r: Self)
        ensures
            r == default_ephemeris_spec::<S>(),
    {
        default_ephemeris()
    }
}

/// Owns the ephemeris signal and the six-stage integrator at the simulation
/// step.
#[derive(Clone, Copy)]
pub struct TruthEphemerisBus<S> {
    pub signal: TruthEphemerisSignal<S>,
    pub integrator: RK5<S>,
}

impl<S: Scalar> TruthEphemerisBus<S> {
    /// One step of the two-body model from `prev` with this bus's step size,
    /// from time zero; the applied force of `act` is handed to the model.
    pub open spec fn propagated(self, act: TruthActuatorBus<S>, prev: TruthEphemerisSignal<S>) -> TruthEphemerisSignal<S> {
        TruthEphemerisSignal::from_state_spec(
            rk5_spec(TwoBody, self.integrator.0, S::ratio_spec(0, 1), prev.state_spec(), act.net_forces),
        )
    }

    /// A bus that starts from `signal` and steps by `sc_ts`.
    pub fn initialize(sc_ts: S, signal: TruthEphemerisSignal<S>) -> (r: Self)
        ensures
            r.signal == signal,
            r.integrator.0 == sc_ts,
    {
        TruthEphemerisBus { signal, integrator: RK5(sc_ts) }
    }

    /// Overwrites this bus's signal with one step from the previous bus's
    /// signal; the integrator stays.
    pub fn process(&mut self, actuator_dynamics: &TruthActuatorBus<S>, prev_ephem: &Self)
        ensures
            final(self).signal == old(self).propagated(*actuator_dynamics, prev_ephem.signal),
            final(self).integrator == old(self).integrator,
    {
        self.propagate(actuator_dynamics, &prev_ephem.signal);
    }

    fn propagate(&mut self, actuator_dynamics: &TruthActuatorBus<S>, prev_ephem: &TruthEphemerisSignal<S>)
        ensures
            final(self).signal == old(self).propagated(*actuator_dynamics, *prev_ephem),
            final(self).integrator == old(self).integrator,
    {
        let state0 = prev_ephem.to_state_vector();
        let nstate = self.integrator.integrate(&TwoBody, S::ratio(0, 1), &state0, &actuator_dynamics.net_forces);
        self.signal.from_state_vector(nstate);
    }
}

impl<S: Scalar> Default for TruthEphemerisBus<S> {
    /// The default circular orbit, stepped by 0.1 s.
    fn default() -> (r: Self)
        ensures
            r.signal == default_ephemeris_spec::<S>(),
            r.integrator.0 == S::ratio_spec(1, 10),
    {
        Self::initialize(S::ratio(1, 10), default_ephemeris())
    }
}

} // verus!
