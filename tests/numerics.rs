use truth_sim::attitude::kinedynamics::{rigid_body_dynamics, AttitudeInput, RigidBody};
use truth_sim::ephemeris::consts::MU_M3_PER_S2;
use truth_sim::ephemeris::kinedynamics::{orbital_twobody, TwoBody};
use truth_sim::linalg::{det, inv_3x3, Mat3};
use truth_sim::ode::{Derivative, Integrator, RK2, RK5};
use truth_sim::scalar::Scalar;

#[derive(Clone, Copy, Debug, PartialEq)]
struct R64(f64);

impl Scalar for R64 {
    fn add_spec(a: R64, b: R64) -> R64 {
        R64(a.0 + b.0)
    }
    fn sub_spec(a: R64, b: R64) -> R64 {
        R64(a.0 - b.0)
    }
    fn mul_spec(a: R64, b: R64) -> R64 {
        R64(a.0 * b.0)
    }
    fn div_spec(a: R64, b: R64) -> R64 {
        R64(a.0 / b.0)
    }
    fn sqrt_spec(a: R64) -> R64 {
        R64(a.0.sqrt())
    }
    fn ratio_spec(num: i64, den: i64) -> R64 {
        R64(num as f64 / den as f64)
    }
    fn is_zero_spec(a: R64) -> bool {
        a.0 == 0.0
    }
    fn is_positive_spec(a: R64) -> bool {
        a.0 > 0.0
    }
    fn add(self, b: R64) -> R64 {
        R64::add_spec(self, b)
    }
    fn sub(self, b: R64) -> R64 {
        R64::sub_spec(self, b)
    }
    fn mul(self, b: R64) -> R64 {
        R64::mul_spec(self, b)
    }
    fn div(self, b: R64) -> R64 {
        R64::div_spec(self, b)
    }
    fn sqrt(self) -> R64 {
        R64::sqrt_spec(self)
    }
    fn ratio(num: i64, den: i64) -> R64 {
        R64::ratio_spec(num, den)
    }
    fn is_zero(self) -> bool {
        R64::is_zero_spec(self)
    }
    fn is_positive(self) -> bool {
        R64::is_positive_spec(self)
    }
}

fn v3(a: f64, b: f64, c: f64) -> [R64; 3] {
    [R64(a), R64(b), R64(c)]
}

fn diag(a: f64, b: f64, c: f64) -> Mat3<R64> {
    Mat3 { c0: v3(a, 0.0, 0.0), c1: v3(0.0, b, 0.0), c2: v3(0.0, 0.0, c) }
}

fn close(a: f64, b: f64, tol: f64) -> bool {
    (a - b).abs() <= tol
}

fn state(v: &[f64]) -> Vec<R64> {
    v.iter().map(|&x| R64(x)).collect()
}

const MU: f64 = MU_M3_PER_S2 as f64;

/// Position error after `steps` steps of size `h` on a circular orbit of
/// radius 7000 km, against the closed-form solution.
fn orbit_error<I: Integrator<R64>>(integ: &I, steps: usize, h: f64) -> f64 {
    let a = 7.0e6;
    let n = (MU / (a * a * a)).sqrt();
    let mut x = state(&[a, 0.0, 0.0, 0.0, a * n, 0.0]);
    for _ in 0..steps {
        x = integ.integrate(&TwoBody, R64(0.0), &x, &[R64(0.0), R64(0.0), R64(0.0)]);
    }
    let t = steps as f64 * h;
    let (ex, ey) = (a * (n * t).cos(), a * (n * t).sin());
    ((x[0].0 - ex).powi(2) + (x[1].0 - ey).powi(2)).sqrt()
}

#[test]
fn rk2_one_step_exact_value() {
    // From rest at r = [a, 0, 0]: k1 = [0, 0, 0, -g, 0, 0] with g = mu/a^2. The
    // midpoint state is still at r = a with velocity -h*g/2, so one step
    // moves x by -h^2*g/2 and leaves the velocity at -h*g.
    let a = 7.0e6;
    let g = MU / (a * a);
    let h = 2.0;
    let out = RK2(R64(h)).integrate(&TwoBody, R64(0.0), &state(&[a, 0.0, 0.0, 0.0, 0.0, 0.0]), &v3(0.0, 0.0, 0.0));
    assert!(close(out[0].0, a - h * h * g / 2.0, 1e-6));
    assert!(close(out[3].0, -h * g, 1e-12));
    assert_eq!(out[1].0, 0.0);
}

#[test]
fn rk5_one_step_follows_circular_orbit() {
    let e = orbit_error(&RK5(R64(10.0)), 1, 10.0);
    assert!(e < 1e-3, "error {}", e);
}

#[test]
fn midpoint_error_shrinks_fourfold_when_step_halves() {
    let e1 = orbit_error(&RK2(R64(20.0)), 100, 20.0);
    let e2 = orbit_error(&RK2(R64(10.0)), 200, 10.0);
    let ratio = e1 / e2;
    assert!(ratio > 3.5 && ratio < 4.5, "ratio {}", ratio);
}

#[test]
fn six_stage_error_shrinks_about_thirtytwofold_when_step_halves() {
    let e1 = orbit_error(&RK5(R64(200.0)), 10, 200.0);
    let e2 = orbit_error(&RK5(R64(100.0)), 20, 100.0);
    let ratio = e1 / e2;
    assert!(ratio > 25.0 && ratio < 40.0, "ratio {}", ratio);
}

#[test]
fn quaternion_rate_is_orthogonal_to_quaternion() {
    let n = (0.1f64 * 0.1 + 0.2 * 0.2 + 0.3 * 0.3 + 0.9 * 0.9).sqrt();
    let q = [0.1 / n, -0.2 / n, 0.3 / n, 0.9 / n];
    let x = state(&[q[0], q[1], q[2], q[3], 0.4, -1.3, 2.2]);
    let u = AttitudeInput { torque: v3(0.5, -0.25, 1.0), inertia: diag(10.0, 20.0, 30.0) };
    let d = rigid_body_dynamics(R64(0.0), &x, &u);
    let dot: f64 = (0..4).map(|i| q[i] * d[i].0).sum();
    assert!(dot.abs() < 1e-15, "dot {}", dot);
}

#[test]
fn rigid_body_rates_exact_values() {
    let x = state(&[0.0, 0.0, 0.0, 1.0, 1.0, 2.0, 3.0]);
    let u = AttitudeInput { torque: v3(0.0, 0.0, 0.0), inertia: diag(10.0, 20.0, 30.0) };
    let d = rigid_body_dynamics(R64(0.0), &x, &u);
    let expected = [0.5, 1.0, 1.5, 0.0, -6.0, 3.0, -20.0 / 30.0];
    assert_eq!(d.len(), 7);
    for i in 0..7 {
        assert!(close(d[i].0, expected[i], 1e-12), "component {}: {}", i, d[i].0);
    }
}

#[test]
fn rigid_body_applies_torque_through_inverse_inertia() {
    let x = state(&[0.0, 0.0, 0.0, 1.0, 0.0, 0.0, 0.0]);
    let u = AttitudeInput { torque: v3(1.0, 2.0, 3.0), inertia: diag(10.0, 20.0, 30.0) };
    let d = RigidBody.eval(R64(0.0), &x, &u);
    assert!(close(d[4].0, 0.1, 1e-15));
    assert!(close(d[5].0, 0.1, 1e-15));
    assert!(close(d[6].0, 0.1, 1e-15));
}

#[test]
fn adjugate_inverse_of_full_matrix() {
    let m = Mat3 { c0: v3(2.0, 1.0, 0.0), c1: v3(1.0, 3.0, 1.0), c2: v3(0.0, 1.0, 4.0) };
    assert!(close(det(&m).0, 18.0, 1e-12));
    let inv = inv_3x3(&m);
    let cols = [m.c0, m.c1, m.c2];
    let icols = [inv.c0, inv.c1, inv.c2];
    for i in 0..3 {
        for j in 0..3 {
            let p: f64 = (0..3).map(|k| cols[k][i].0 * icols[j][k].0).sum();
            let id = if i == j { 1.0 } else { 0.0 };
            assert!(close(p, id, 1e-12), "({}, {}) = {}", i, j, p);
        }
    }
}

#[test]
fn twobody_acceleration_exact_value() {
    let x = state(&[7.0e6, 0.0, 0.0, 0.0, 7.5e3, 1.0]);
    let d = orbital_twobody(R64(0.0), &x, &v3(0.0, 0.0, 0.0));
    let mu = MU;
    assert_eq!(d[0].0, 0.0);
    assert_eq!(d[1].0, 7.5e3);
    assert_eq!(d[2].0, 1.0);
    assert!(close(d[3].0, -mu / 4.9e13, 1e-12));
    assert_eq!(d[4].0, 0.0);
    assert_eq!(d[5].0, 0.0);
}

#[test]
fn torque_free_motion_keeps_angular_momentum_magnitude() {
    let integ = RK5(R64(0.1));
    let u = AttitudeInput { torque: v3(0.0, 0.0, 0.0), inertia: diag(10.0, 20.0, 30.0) };
    let mut x = state(&[0.0, 0.0, 0.0, 1.0, 0.1, 0.2, 0.3]);
    let h = |x: &Vec<R64>| {
        let l = [10.0 * x[4].0, 20.0 * x[5].0, 30.0 * x[6].0];
        (l[0] * l[0] + l[1] * l[1] + l[2] * l[2]).sqrt()
    };
    let h0 = h(&x);
    for _ in 0..200 {
        x = integ.integrate(&RigidBody, R64(0.0), &x, &u);
    }
    assert!(((h(&x) - h0) / h0).abs() < 1e-6);
    assert!(x[4].0 != 0.1 || x[5].0 != 0.2);
}

#[test]
fn circular_orbit_keeps_energy_and_angular_momentum_over_one_period() {
    let mu = MU;
    let a = 6378137.0 + 500000.0;
    let period = 2.0 * std::f64::consts::PI * (a * a * a / mu).sqrt();
    let steps = 600usize;
    let integ = RK5(R64(period / steps as f64));
    let mut x = state(&[a, 0.0, 0.0, 0.0, (mu / a).sqrt(), 0.0]);
    let energy = |x: &Vec<R64>| {
        let r = (x[0].0 * x[0].0 + x[1].0 * x[1].0 + x[2].0 * x[2].0).sqrt();
        (x[3].0 * x[3].0 + x[4].0 * x[4].0 + x[5].0 * x[5].0) / 2.0 - mu / r
    };
    let hz = |x: &Vec<R64>| x[0].0 * x[4].0 - x[1].0 * x[3].0;
    let (e0, h0) = (energy(&x), hz(&x));
    for _ in 0..steps {
        x = integ.integrate(&TwoBody, R64(0.0), &x, &v3(0.0, 0.0, 0.0));
    }
    assert!(((energy(&x) - e0) / e0).abs() < 1e-6);
    assert!(((hz(&x) - h0) / h0).abs() < 1e-6);
    assert!(close(x[0].0, a, 1.0), "back at start: {}", x[0].0);
}
