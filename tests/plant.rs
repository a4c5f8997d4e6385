use truth_sim::actuators::types::{ActuatorBus, TruthActuatorBus};
use truth_sim::attitude::types::{TruthAttitudeBus, TruthAttitudeSignal, TruthMultibodyBus};
use truth_sim::ephemeris::types::{TruthEphemerisBus, TruthEphemerisSignal};
use truth_sim::linalg::Mat3;
use truth_sim::sc_types::{
    SpacecraftActuatorArchitecture, SpacecraftAttitudeArchitecture, SpacecraftEphemerisArchitecture,
    SpacecraftMultibodyArchitecture, SpacecraftParamBus, SpacecraftSensorArchitecture, SpacecraftState,
};
use truth_sim::scalar::Scalar;
use truth_sim::sensors::types::{RawSensorBus, TruthSensorBus};
use truth_sim::types::TruthBus;
use truth_sim::{check_config, ConfigError, Spacecraft};

#[derive(Clone, Copy, Debug, PartialEq)]
struct R64(f64);

impl Scalar for R64 {
    fn add_spec(a: R64, b: R64) -> R64 {
        R64(a.0 + b.0)
    }
    fn sub_spec(a: R64, b: R64) -> R64 {
        R64(a.0 - b.0)
    }
    fn mul_spec(a: R64, b: R64) -> R64 {
        R64(a.0 * b.0)
    }
    fn div_spec(a: R64, b: R64) -> R64 {
        R64(a.0 / b.0)
    }
    fn sqrt_spec(a: R64) -> R64 {
        R64(a.0.sqrt())
    }
    fn ratio_spec(num: i64, den: i64) -> R64 {
        R64(num as f64 / den as f64)
    }
    fn is_zero_spec(a: R64) -> bool {
        a.0 == 0.0
    }
    fn is_positive_spec(a: R64) -> bool {
        a.0 > 0.0
    }
    fn add(self, b: R64) -> R64 {
        R64::add_spec(self, b)
    }
    fn sub(self, b: R64) -> R64 {
        R64::sub_spec(self, b)
    }
    fn mul(self, b: R64) -> R64 {
        R64::mul_spec(self, b)
    }
    fn div(self, b: R64) -> R64 {
        R64::div_spec(self, b)
    }
    fn sqrt(self) -> R64 {
        R64::sqrt_spec(self)
    }
    fn ratio(num: i64, den: i64) -> R64 {
        R64::ratio_spec(num, den)
    }
    fn is_zero(self) -> bool {
        R64::is_zero_spec(self)
    }
    fn is_positive(self) -> bool {
        R64::is_positive_spec(self)
    }
}

fn v3(a: f64, b: f64, c: f64) -> [R64; 3] {
    [R64(a), R64(b), R64(c)]
}

fn params_with(inertia: Mat3<R64>) -> SpacecraftParamBus<R64> {
    let att = SpacecraftAttitudeArchitecture::with_inertia(
        [R64(0.0), R64(0.0), R64(0.0), R64(1.0)],
        v3(0.01, -0.02, 0.03),
        inertia,
    );
    SpacecraftParamBus::initialize(
        SpacecraftActuatorArchitecture {},
        SpacecraftEphemerisArchitecture::default_orbit(),
        att,
        SpacecraftMultibodyArchitecture::initialize(v3(0.0, 0.0, 0.0)),
        SpacecraftSensorArchitecture {},
    )
}

fn params() -> SpacecraftParamBus<R64> {
    let att = SpacecraftAttitudeArchitecture::initialize([R64(0.0), R64(0.0), R64(0.0), R64(1.0)], v3(0.01, -0.02, 0.03));
    params_with(att.inertia)
}

#[test]
fn non_positive_step_is_refused() {
    assert_eq!(Spacecraft::initialize(R64(0.0), params()).err(), Some(ConfigError::NonPositiveStep));
    assert_eq!(check_config(R64(-1.0), &params()), Err(ConfigError::NonPositiveStep));
}

#[test]
fn singular_inertia_is_refused() {
    let flat = Mat3 { c0: v3(1.0, 2.0, 3.0), c1: v3(2.0, 4.0, 6.0), c2: v3(0.0, 0.0, 1.0) };
    assert_eq!(Spacecraft::initialize(R64(0.1), params_with(flat)).err(), Some(ConfigError::SingularInertia));
    assert_eq!(check_config(R64(0.1), &params()), Ok(()));
}

#[test]
fn inertia_with_negative_minor_is_refused() {
    let m = Mat3 { c0: v3(-10.0, 0.0, 0.0), c1: v3(0.0, 20.0, 0.0), c2: v3(0.0, 0.0, 30.0) };
    assert_eq!(
        Spacecraft::initialize(R64(0.1), params_with(m)).err(),
        Some(ConfigError::NonPositiveDefiniteInertia)
    );
    let m = Mat3 { c0: v3(10.0, 0.0, 0.0), c1: v3(0.0, -20.0, 0.0), c2: v3(0.0, 0.0, -30.0) };
    assert_eq!(check_config(R64(0.1), &params_with(m)), Err(ConfigError::NonPositiveDefiniteInertia));
}

#[test]
fn construction_takes_initial_conditions_from_parameters() {
    let p = params();
    let sc = Spacecraft::initialize(R64(0.5), p).unwrap();
    assert_eq!(sc.sim_time, R64(0.0));
    assert_eq!(sc.ts, R64(0.5));
    assert_eq!(sc.curr_sc_state.truth_attitude.signal.omega_sc, v3(0.01, -0.02, 0.03));
    assert_eq!(sc.curr_sc_state.truth_ephemeris.signal.r_sc_eci, p.sc_ephemeris.r_sc_eci);
    assert_eq!(sc.curr_sc_state.truth_ephemeris.integrator.0, R64(0.5));
    assert_eq!(sc.prev_sc_state.truth_attitude.integrator.0, R64(0.5));
    assert_eq!(sc.initial_state(), RawSensorBus {});
}

#[test]
fn default_orbit_is_circular_at_500_km() {
    let e = SpacecraftEphemerisArchitecture::<R64>::default_orbit();
    let a = 6378137.0 + 500000.0;
    assert_eq!(e.r_sc_eci, v3(a, 0.0, 0.0));
    assert!((e.v_sc_eci[1].0 - (398600441800000.0f64 / a).sqrt()).abs() < 1e-9);
}

#[test]
fn previous_buffer_holds_last_current_after_each_tick() {
    let mut sc = Spacecraft::initialize(R64(1.0), params()).unwrap();
    let cmd = ActuatorBus {};
    let mut last_r = sc.curr_sc_state.truth_ephemeris.signal.r_sc_eci;
    let mut last_q = sc.curr_sc_state.truth_attitude.signal.q_sc_eci;
    for _ in 0..5 {
        let raw = sc.simulate_plant(&cmd);
        assert_eq!(raw, RawSensorBus {});
        assert_eq!(sc.prev_sc_state.truth_ephemeris.signal.r_sc_eci, last_r);
        assert_eq!(sc.prev_sc_state.truth_attitude.signal.q_sc_eci, last_q);
        assert!(sc.curr_sc_state.truth_ephemeris.signal.r_sc_eci != last_r);
        last_r = sc.curr_sc_state.truth_ephemeris.signal.r_sc_eci;
        last_q = sc.curr_sc_state.truth_attitude.signal.q_sc_eci;
    }
    assert_eq!(sc.sim_time, R64(5.0));
}

#[test]
fn identical_runs_agree_bit_for_bit() {
    let mut a = Spacecraft::initialize(R64(0.25), params()).unwrap();
    let mut b = Spacecraft::initialize(R64(0.25), params()).unwrap();
    let cmd = ActuatorBus {};
    for _ in 0..50 {
        assert_eq!(a.simulate_plant(&cmd), b.simulate_plant(&cmd));
        assert_eq!(a.curr_sc_state.truth_ephemeris.signal.r_sc_eci, b.curr_sc_state.truth_ephemeris.signal.r_sc_eci);
        assert_eq!(a.curr_sc_state.truth_ephemeris.signal.v_sc_eci, b.curr_sc_state.truth_ephemeris.signal.v_sc_eci);
        assert_eq!(a.curr_sc_state.truth_attitude.signal.q_sc_eci, b.curr_sc_state.truth_attitude.signal.q_sc_eci);
        assert_eq!(a.curr_sc_state.truth_attitude.signal.omega_sc, b.curr_sc_state.truth_attitude.signal.omega_sc);
    }
}

#[test]
fn attitude_signal_round_trips_through_state_vector() {
    let sig = TruthAttitudeSignal::initialize([R64(0.5), R64(-0.5), R64(0.5), R64(0.5)], v3(1.0, 2.0, 3.0));
    let v = sig.to_state_vector();
    assert_eq!(v, vec![R64(0.5), R64(-0.5), R64(0.5), R64(0.5), R64(1.0), R64(2.0), R64(3.0)]);
    let mut other = TruthAttitudeSignal::default();
    assert_eq!(other.q_sc_eci, [R64(0.0), R64(0.0), R64(0.0), R64(1.0)]);
    other.from_state_vector(v);
    assert_eq!(other.q_sc_eci, sig.q_sc_eci);
    assert_eq!(other.omega_sc, sig.omega_sc);
}

#[test]
fn ephemeris_signal_round_trips_through_state_vector() {
    let sig = TruthEphemerisSignal::initialize(v3(1.0, 2.0, 3.0), v3(4.0, 5.0, 6.0));
    let v = sig.to_state_vector();
    assert_eq!(v, vec![R64(1.0), R64(2.0), R64(3.0), R64(4.0), R64(5.0), R64(6.0)]);
    let mut other = TruthEphemerisSignal::initialize(v3(0.0, 0.0, 0.0), v3(0.0, 0.0, 0.0));
    other.from_state_vector(v);
    assert_eq!(other.r_sc_eci, sig.r_sc_eci);
    assert_eq!(other.v_sc_eci, sig.v_sc_eci);
}

#[test]
fn placeholder_buses_return_their_fixed_values() {
    let prev = TruthActuatorBus { net_forces: v3(1.0, 1.0, 1.0), net_torques: v3(2.0, 2.0, 2.0) };
    let act = TruthActuatorBus::process(&ActuatorBus {}, &prev);
    assert_eq!(act.net_forces, v3(0.0, 0.0, 0.0));
    assert_eq!(act.net_torques, v3(0.0, 0.0, 0.0));
    assert_eq!(TruthMultibodyBus::process(&act, &TruthMultibodyBus {}), TruthMultibodyBus {});
    let st = SpacecraftState::initialize(R64(0.1), None, None, None, None, None);
    let sensor = TruthSensorBus::process(
        &ActuatorBus {},
        &act,
        &st.truth_ephemeris,
        &st.truth_attitude,
        &st.truth_multibody,
        &TruthSensorBus {},
    );
    assert_eq!(sensor.to_raw_bus(), RawSensorBus {});
    let _bus = TruthBus::initialize();
}

#[test]
fn state_defaults_fill_missing_buses() {
    let st = SpacecraftState::initialize(R64(0.2), None, None, None, None, None);
    assert_eq!(st.truth_attitude.signal.q_sc_eci, [R64(0.0), R64(0.0), R64(0.0), R64(1.0)]);
    assert_eq!(st.truth_attitude.integrator.0, R64(0.2));
    assert_eq!(st.truth_attitude.inertia.c1, v3(0.0, 20.0, 0.0));
    assert_eq!(st.truth_ephemeris.integrator.0, R64(0.2));
}

#[test]
fn defaults_step_by_a_tenth_of_a_second() {
    let st = SpacecraftState::<R64>::default();
    assert_eq!(st.truth_ephemeris.integrator.0, R64(0.1));
    assert_eq!(st.truth_attitude.integrator.0, R64(0.1));
    let eb = TruthEphemerisBus::<R64>::default();
    assert_eq!(eb.signal.r_sc_eci, TruthEphemerisSignal::<R64>::default().r_sc_eci);
    assert_eq!(eb.signal.r_sc_eci, v3(6878137.0, 0.0, 0.0));
    let ab = TruthAttitudeBus::<R64>::default();
    assert_eq!(ab.signal.omega_sc, v3(0.0, 0.0, 0.0));
    assert_eq!(ab.inertia.c2, v3(0.0, 0.0, 30.0));
}
