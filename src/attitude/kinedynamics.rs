//! Quaternion kinematics and Euler's rigid-body equation.
//!
//! State layout: `[q₀, q₁, q₂, q₃, ω₀, ω₁, ω₂]`, the quaternion scalar-last
//! (body to inertial) and the body rate in rad/s.
use vstd::prelude::*;

use vstd::arithmetic::mul::{
    lemma_mul_by_zero_is_zero, lemma_mul_is_commutative, lemma_mul_is_distributive_add,
    lemma_mul_is_distributive_sub,
};

use crate::linalg::{
    cross, cross_exact, cross_spec, dot_exact, inv_3x3, inv_spec, lemma_cross_orthogonal, lemma_swap, mat_vec,
    mat_vec_spec, Mat3,
};
use crate::ode::Derivative;
use crate::scalar::Scalar;

verus! {

/// What the attitude model takes besides the state: the applied body
/// torque and the inertia matrix.
#[derive(Clone, Copy)]
pub struct AttitudeInput<S> {
    pub torque: [S; 3],
    pub inertia: Mat3<S>,
}

/// `Ω(ω)·q` for the 4×4 skew-symmetric matrix `Ω(ω) = [[−[ω×], ω], [−ωᵀ, 0]]`,
/// written once for any ring operations so that it can be read over exact
/// numbers as well as over a `Scalar`.
pub open spec fn omega_times_q<A>(
    zero: A,
    plus: spec_fn(A, A) -> A,
    minus: spec_fn(A, A) -> A,
    times: spec_fn(A, A) -> A,
    w: Seq<A>,
    q: Seq<A>,
) -> Seq<A> {
    seq![
        plus(minus(times(w[2], q[1]), times(w[1], q[2])), times(w[0], q[3])),
        plus(minus(times(w[0], q[2]), times(w[2], q[0])), times(w[1], q[3])),
        plus(minus(times(w[1], q[0]), times(w[0], q[1])), times(w[2], q[3])),
        minus(minus(minus(zero, times(w[0], q[0])), times(w[1], q[1])), times(w[2], q[2])),
    ]
}

/// `Ω(ω)·q` over a `Scalar`.
pub open spec fn omega_q_spec<S: Scalar>(w: Seq<S>, q: Seq<S>) -> Seq<S> {
    omega_times_q(
        S::ratio_spec(0, 1),
        |a: S, b: S| S::add_spec(a, b),
        |a: S, b: S| S::sub_spec(a, b),
        |a: S, b: S| S::mul_spec(a, b),
        w,
        q,
    )
}

/// `Ω(ω)·q` in exact integer arithmetic.
pub open spec fn omega_q_exact(w: Seq<int>, q: Seq<int>) -> Seq<int> {
    omega_times_q(0int, |a: int, b: int| a + b, |a: int, b: int| a - b, |a: int, b: int| a * b, w, q)
}

proof fn lemma_distribute(a: int, x1: int, y1: int, x2: int, y2: int, x3: int, y3: int)
    ensures
        a * (x1 * y1 - x2 * y2 + x3 * y3) == x1 * (a * y1) - x2 * (a * y2) + x3 * (a * y3),
        a * (0 - x1 * y1 - x2 * y2 - x3 * y3) == 0 - x1 * (a * y1) - x2 * (a * y2) - x3 * (a * y3),
{
    let (t1, t2, t3) = (x1 * y1, x2 * y2, x3 * y3);
    lemma_mul_is_distributive_add(a, t1 - t2, t3);
    lemma_mul_is_distributive_sub(a, t1, t2);
    lemma_mul_is_distributive_sub(a, 0 - t1 - t2, t3);
    lemma_mul_is_distributive_sub(a, 0 - t1, t2);
    lemma_mul_is_distributive_sub(a, 0, t1);
    lemma_mul_by_zero_is_zero(a);
    lemma_swap(a, x1, y1);
    lemma_swap(a, x2, y2);
    lemma_swap(a, x3, y3);
}

/// Kinematic consistency: in exact arithmetic the quaternion rate
/// `q̇ = ½·Ω(ω)·q` is orthogonal to `q`, for every quaternion and every body
/// rate, because `Ω(ω)` is skew-symmetric. Stated for `2·q̇ = Ω(ω)·q` over
/// integers; the identity is polynomial, so it holds over the reals too.
pub proof fn lemma_quat_rate_orthogonal(w: Seq<int>, q: Seq<int>)
    requires
        w.len() == 3,
        q.len() == 4,
    ensures
        ({
            let o = omega_q_exact(w, q);
            q[0] * o[0] + q[1] * o[1] + q[2] * o[2] + q[3] * o[3] == 0
        }),
{
    let o = omega_q_exact(w, q);
    lemma_distribute(q[0], w[2], q[1], w[1], q[2], w[0], q[3]);
    lemma_distribute(q[1], w[0], q[2], w[2], q[0], w[1], q[3]);
    lemma_distribute(q[2], w[1], q[0], w[0], q[1], w[2], q[3]);
    lemma_distribute(q[3], w[0], q[0], w[1], q[1], w[2], q[2]);
    lemma_mul_is_commutative(q[0], q[1]);
    lemma_mul_is_commutative(q[0], q[2]);
    lemma_mul_is_commutative(q[0], q[3]);
    lemma_mul_is_commutative(q[1], q[2]);
    lemma_mul_is_commutative(q[1], q[3]);
    lemma_mul_is_commutative(q[2], q[3]);
}

/// Torque-free conservation, in exact arithmetic: with no torque Euler's
/// equation gives `J·ω̇ = −ω × l` for `l = J·ω`. That rate is orthogonal to
/// `l`, so `|l|²` has zero time derivative (`d|l|²/dt = 2·l·(J·ω̇)`), and
/// to `ω`, so the kinetic energy `½·ω·l` has zero time derivative too for a
/// symmetric `J`.
pub proof fn lemma_torque_free_rates(w: Seq<int>, l: Seq<int>)
    requires
        w.len() == 3,
        l.len() == 3,
    ensures
        dot_exact(l, cross_exact(w, l)) == 0,
        dot_exact(w, cross_exact(w, l)) == 0,
{
    lemma_cross_orthogonal(w, l);
}

/// `q̇ = ½·Ω(ω)·q`.
pub open spec fn quat_rate_spec<S: Scalar>(w: Seq<S>, q: Seq<S>) -> Seq<S> {
    let o = omega_q_spec(w, q);
    let half = S::ratio_spec(1, 2);
    seq![S::mul_spec(half, o[0]), S::mul_spec(half, o[1]), S::mul_spec(half, o[2]), S::mul_spec(half, o[3])]
}

pub open spec fn sub3_spec<S: Scalar>(a: [S; 3], b: [S; 3]) -> [S; 3] {
    [S::sub_spec(a[0], b[0]), S::sub_spec(a[1], b[1]), S::sub_spec(a[2], b[2])]
}

/// `ω̇ = J⁻¹·(τ − ω × (J·ω))`.
pub open spec fn rate_accel_spec<S: Scalar>(w: [S; 3], u: AttitudeInput<S>) -> [S; 3] {
    let jw = mat_vec_spec(u.inertia, w);
    mat_vec_spec(inv_spec(u.inertia), sub3_spec(u.torque, cross_spec(w, jw)))
}

/// `[q̇; ω̇]` for the state `x`.
pub open spec fn rigid_body_spec<S: Scalar>(x: Seq<S>, u: AttitudeInput<S>) -> Seq<S> {
    let w: [S; 3] = [x[4], x[5], x[6]];
    quat_rate_spec(w@, x.subrange(0, 4)) + rate_accel_spec(w, u)@
}

/// The rigid-body rate function: `[q̇; ω̇]` from `[q; ω]`, the torque and
/// the inertia. The time is not used: the model is time-invariant.
pub fn rigid_body_dynamics<S: Scalar>(_t: S, state0: &Vec<S>, inpt: &AttitudeInput<S>) -> (r: Vec<S>)
    requires
        state0@.len() == 7,
    ensures
        r@ == rigid_body_spec(state0@, *inpt),
        r@.len() == 7,
{
    let w: [S; 3] = [state0[4], state0[5], state0[6]];
    let half = S::ratio(1, 2);
    let zero = S::ratio(0, 1);
    let o0 = w[2].mul(state0[1]).sub(w[1].mul(state0[2])).add(w[0].mul(state0[3]));
    let o1 = w[0].mul(state0[2]).sub(w[2].mul(state0[0])).add(w[1].mul(state0[3]));
    let o2 = w[1].mul(state0[0]).sub(w[0].mul(state0[1])).add(w[2].mul(state0[3]));
    let o3 = zero.sub(w[0].mul(state0[0])).sub(w[1].mul(state0[1])).sub(w[2].mul(state0[2]));

    let jw = mat_vec(&inpt.inertia, &w);
    let wxjw = cross(&w, &jw);
    let net = [inpt.torque[0].sub(wxjw[0]), inpt.torque[1].sub(wxjw[1]), inpt.torque[2].sub(wxjw[2])];
    let inv_j = inv_3x3(&inpt.inertia);
    let wdot = mat_vec(&inv_j, &net);

    let r = vec![half.mul(o0), half.mul(o1), half.mul(o2), half.mul(o3), wdot[0], wdot[1], wdot[2]];
    assert(r@ =~= rigid_body_spec(state0@, *inpt));
    r
}

/// The rigid-body model as an integrator's rate function.
#[derive(Clone, Copy)]
pub struct RigidBody;

impl<S: Scalar> Derivative<S, AttitudeInput<S>> for RigidBody {
    open spec fn dim(&self) -> nat {
        7
    }

    open spec fn rate(&self, t: S, x: Seq<S>, u: AttitudeInput<S>) -> Seq<S> {
        rigid_body_spec(x, u)
    }

    fn eval(&self, t: S, x: &Vec<S>, u: &AttitudeInput<S>) -> (r: Vec<S>) {
        rigid_body_dynamics(t, x, u)
    }
}

} // verus!
