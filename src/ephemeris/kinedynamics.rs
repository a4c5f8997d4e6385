//! Point-mass gravity: `a = −μ·r/|r|³`.
//!
//! State layout: `[r₀, r₁, r₂, v₀, v₁, v₂]`, inertial position in m and
//! velocity in m/s.
use vstd::prelude::*;

use crate::ephemeris::consts::{mu, mu_spec};
use crate::linalg::{cross_exact, dot, dot_spec, lemma_cross_parallel, scale_exact};
use crate::ode::Derivative;
use crate::scalar::Scalar;

verus! {

/// `[v; (−μ·r)/|r|³]` for the state `x`, with `|r| = √(r·r)`.
pub open spec fn twobody_spec<S: Scalar>(x: Seq<S>) -> Seq<S> {
    let r: [S; 3] = [x[0], x[1], x[2]];
    let norm = S::sqrt_spec(dot_spec(r, r));
    let cube = S::mul_spec(S::mul_spec(norm, norm), norm);
    let k = S::mul_spec(S::ratio_spec(-1i64, 1i64), mu_spec::<S>());
    seq![
        x[3],
        x[4],
        x[5],
        S::div_spec(S::mul_spec(k, r[0]), cube),
        S::div_spec(S::mul_spec(k, r[1]), cube),
        S::div_spec(S::mul_spec(k, r[2]), cube),
    ]
}

/// Two-body angular momentum, in exact arithmetic: the acceleration
/// `−μ·r/|r|³` is `s·r` for the scalar `s = −μ/|r|³`, so the time
/// derivative of `r × v`, which is `v × v + r × (s·r)`, is zero.
pub proof fn lemma_central_force_angular_momentum(r: Seq<int>, v: Seq<int>, s: int)
    requires
        r.len() == 3,
        v.len() == 3,
    ensures
        cross_exact(v, v) == seq![0int, 0int, 0int],
        cross_exact(r, scale_exact(s, r)) == seq![0int, 0int, 0int],
{
    lemma_cross_parallel(v, 1);
    assert(scale_exact(1, v) =~= v);
    lemma_cross_parallel(r, s);
}

/// The two-body rate function. The applied force `_inpt` is carried for a
/// uniform interface and not used; neither is the time.
pub fn orbital_twobody<S: Scalar>(_t: S, state0: &Vec<S>, _inpt: &[S; 3]) -> (r: Vec<S>)
    requires
        state0@.len() == 6,
    ensures
        r@ == twobody_spec(state0@),
        r@.len() == 6,
{
    let rv: [S; 3] = [state0[0], state0[1], state0[2]];
    let norm = dot(&rv, &rv).sqrt();
    let cube = norm.mul(norm).mul(norm);
    let k = S::ratio(-1, 1).mul(mu::<S>());
    let r = vec![
        state0[3],
        state0[4],
        state0[5],
        k.mul(rv[0]).div(cube),
        k.mul(rv[1]).div(cube),
        k.mul(rv[2]).div(cube),
    ];
    assert(r@ =~= twobody_spec(state0@));
    r
}

/// The two-body model as an integrator's rate function; its input is the
/// applied force.
#[derive(Clone, Copy)]
pub struct TwoBody;

impl<S: Scalar> Derivative<S, [S; 3]> for TwoBody {
    open spec fn dim(&self) -> nat {
        6
    }

    open spec fn rate(&self, t: S, x: Seq<S>, u: [S; 3]) -> Seq<S> {
        twobody_spec(x)
    }

    fn eval(&self, t: S, x: &Vec<S>, u: &[S; 3]) -> (r: Vec<S>) {
        orbital_twobody(t, x, u)
    }
}

} // verus!
