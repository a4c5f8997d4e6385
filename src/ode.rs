//! Fixed-step explicit Runge–Kutta integrators.
//!
//! A stage state is `x + h·(c₁·kₐ + c₂·k_b + …)`, summed left to right, with
//! each coefficient a ratio of integers. Both integrators are built from that
//! one combination, so their contracts spell out the whole Butcher tableau.
use vstd::prelude::*;

use crate::scalar::Scalar;

verus! {

/// A time-invariant or time-varying rate function `ẋ = f(t, x, u)`: the
/// capability an integrator drives. `eval` must be pure: equal arguments
/// give equal rates.
pub trait Derivative<S: Scalar, I> {
    /// Length of the state vectors taken and returned.
    spec fn dim(&self) -> nat;

    spec fn rate(&self, t: S, x: Seq<S>, u: I) -> Seq<S>;

    fn eval(&self, t: S, x: &Vec<S>, u: &I) -> (r: Vec<S>)
        requires
            x@.len() == self.dim(),
        ensures
            r@ == self.rate(t, x@, *u),
            r@.len() == self.dim(),
    ;
}

/// One term of a stage combination: (index of the stage rate, numerator,
/// denominator).
pub type Term = (usize, i64, i64);

pub open spec fn term_coef<S: Scalar>(c: Term) -> S {
    S::ratio_spec(c.1, c.2)
}

/// The first `n` terms at component `i`, summed left to right.
pub open spec fn comb_spec<S: Scalar>(terms: Seq<Term>, ks: Seq<Seq<S>>, i: int, n: nat) -> S
    decreases n,
{
    if n <= 1 {
        S::mul_spec(term_coef::<S>(terms[0]), ks[terms[0].0 as int][i])
    } else {
        S::add_spec(
            comb_spec(terms, ks, i, (n - 1) as nat),
            S::mul_spec(term_coef::<S>(terms[n - 1]), ks[terms[n - 1].0 as int][i]),
        )
    }
}

/// `x + h·Σ terms`, componentwise.
pub open spec fn stage_spec<S: Scalar>(x: Seq<S>, h: S, terms: Seq<Term>, ks: Seq<Seq<S>>) -> Seq<
    S,
> {
    Seq::new(x.len(), |i: int| S::add_spec(x[i], S::mul_spec(h, comb_spec(terms, ks, i, terms.len()))))
}

/// `t + c·h`.
pub open spec fn node_spec<S: Scalar>(t: S, h: S, num: i64, den: i64) -> S {
    S::add_spec(t, S::mul_spec(S::ratio_spec(num, den), h))
}

pub open spec fn views<S>(ks: Seq<Vec<S>>) -> Seq<Seq<S>> {
    ks.map_values(|k: Vec<S>| k@)
}

pub open spec fn terms_ok(terms: Seq<Term>, nk: int) -> bool {
    &&& terms.len() >= 1
    &&& forall|j: int| 0 <= j < terms.len() ==> (#[trigger] terms[j]).0 < nk && terms[j].2 != 0
}

/// Evaluates `stage_spec` for the stage rates gathered so far.
pub fn stage<S: Scalar>(x: &Vec<S>, h: S, terms: &Vec<Term>, ks: &Vec<Vec<S>>) -> (r: Vec<S>)
    requires
        terms_ok(terms@, ks@.len() as int),
        forall|m: int| 0 <= m < ks@.len() ==> (#[trigger] ks@[m])@.len() == x@.len(),
    ensures
        r@ == stage_spec(x@, h, terms@, views(ks@)),
{
    let ghost kv = views(ks@);
    let n = x.len();
    let mut r: Vec<S> = Vec::new();
    let mut i: usize = 0;
    while i < n
        invariant
            n == x@.len(),
            i <= n,
            kv == views(ks@),
            terms_ok(terms@, ks@.len() as int),
            forall|m: int| 0 <= m < ks@.len() ==> (#[trigger] ks@[m])@.len() == x@.len(),
            r@.len() == i,
            forall|ii: int|
                0 <= ii < i ==> #[trigger] r@[ii] == S::add_spec(
                    x@[ii],
                    S::mul_spec(h, comb_spec(terms@, kv, ii, terms@.len())),
                ),
        decreases n - i,
    {
        let t0 = terms[0];
        assert(t0 == terms@[0]);
        let mut acc = S::ratio(t0.1, t0.2).mul(ks[t0.0][i]);
        let mut j: usize = 1;
        while j < terms.len()
            invariant
                1 <= j <= terms@.len(),
                i < n,
                n == x@.len(),
                kv == views(ks@),
                terms_ok(terms@, ks@.len() as int),
                forall|m: int| 0 <= m < ks@.len() ==> (#[trigger] ks@[m])@.len() == x@.len(),
                acc == comb_spec(terms@, kv, i as int, j as nat),
            decreases terms@.len() - j,
        {
            let tj = terms[j];
            assert(tj == terms@[j as int]);
            acc = acc.add(S::ratio(tj.1, tj.2).mul(ks[tj.0][i]));
            j = j + 1;
        }
        r.push(x[i].add(h.mul(acc)));
        i = i + 1;
    }
    assert(r@ =~= stage_spec(x@, h, terms@, views(ks@)));
    r
}

/// The Runge–Kutta schemes that this module offers.
pub enum Scheme {
    Midpoint,
    SixStage,
}

/// One step of `scheme` with step size `h` from `(t, x)` under input `u`.
pub open spec fn step_spec<S: Scalar, I, F: Derivative<S, I>>(
    scheme: Scheme,
    f: F,
    h: S,
    t: S,
    x: Seq<S>,
    u: I,
) -> Seq<S> {
    match scheme {
        Scheme::Midpoint => rk2_spec(f, h, t, x, u),
        Scheme::SixStage => rk5_spec(f, h, t, x, u),
    }
}

/// A fixed-step integrator: one call advances the state by one step. It
/// holds nothing but its step size, so it can be reused freely.
pub trait Integrator<S: Scalar> {
    spec fn scheme(&self) -> Scheme;

    spec fn step_size(&self) -> S;

    fn integrate<I, F: Derivative<S, I>>(&self, d_func: &F, time: S, state0: &Vec<S>, inputs: &I) -> (r: Vec<S>)
        requires
            state0@.len() == d_func.dim(),
        ensures
            r@ == step_spec(self.scheme(), *d_func, self.step_size(), time, state0@, *inputs),
            r@.len() == state0@.len(),
    ;
}

/// Explicit midpoint method with step size `.0` (order 2).
#[derive(Clone, Copy)]
pub struct RK2<S>(pub S);

/// Six-stage explicit Runge–Kutta method of nominal order 5 with step size `.0`.
#[derive(Clone, Copy)]
pub struct RK5<S>(pub S);

/// Midpoint step: `k₁ = f(t, x)`, `k₂ = f(t + h/2, x + h·(½k₁))`,
/// result `x + h·(1·k₂)`.
pub open spec fn rk2_spec<S: Scalar, I, F: Derivative<S, I>>(f: F, h: S, t: S, x: Seq<S>, u: I) -> Seq<S> {
    let k1 = f.rate(t, x, u);
    let k2 = f.rate(node_spec(t, h, 1, 2), stage_spec(x, h, seq![(0usize, 1i64, 2i64)], seq![k1]), u);
    stage_spec(x, h, seq![(1usize, 1i64, 1i64)], seq![k1, k2])
}

pub open spec fn rk5_row2() -> Seq<Term> {
    seq![(0usize, 1i64, 3i64)]
}

pub open spec fn rk5_row3() -> Seq<Term> {
    seq![(0usize, 4i64, 25i64), (1usize, 6i64, 25i64)]
}

pub open spec fn rk5_row4() -> Seq<Term> {
    seq![(0usize, 1i64, 4i64), (1usize, -3i64, 1i64), (2usize, 15i64, 4i64)]
}

pub open spec fn rk5_row5() -> Seq<Term> {
    seq![(0usize, 2i64, 27i64), (1usize, 10i64, 9i64), (2usize, -50i64, 81i64), (3usize, 8i64, 81i64)]
}

pub open spec fn rk5_row6() -> Seq<Term> {
    seq![(0usize, 2i64, 25i64), (1usize, 12i64, 25i64), (2usize, 2i64, 15i64), (3usize, 8i64, 75i64)]
}

/// Final weights; the second and fourth stage rates carry none.
pub open spec fn rk5_weights() -> Seq<Term> {
    seq![(0usize, 23i64, 192i64), (2usize, 125i64, 192i64), (4usize, -27i64, 64i64), (5usize, 125i64, 192i64)]
}

/// The six-stage step, nodes 0, 1/3, 2/25, 1, 2/3, 4/5.
pub open spec fn rk5_spec<S: Scalar, I, F: Derivative<S, I>>(f: F, h: S, t: S, x: Seq<S>, u: I) -> Seq<S> {
    let k1 = f.rate(t, x, u);
    let k2 = f.rate(node_spec(t, h, 1, 3), stage_spec(x, h, rk5_row2(), seq![k1]), u);
    let k3 = f.rate(node_spec(t, h, 2, 25), stage_spec(x, h, rk5_row3(), seq![k1, k2]), u);
    let k4 = f.rate(node_spec(t, h, 1, 1), stage_spec(x, h, rk5_row4(), seq![k1, k2, k3]), u);
    let k5 = f.rate(node_spec(t, h, 2, 3), stage_spec(x, h, rk5_row5(), seq![k1, k2, k3, k4]), u);
    let k6 = f.rate(
        node_spec(t, h, 4, 5),
        stage_spec(x, h, rk5_row6(), seq![k1, k2, k3, k4, k5]),
        u,
    );
    stage_spec(x, h, rk5_weights(), seq![k1, k2, k3, k4, k5, k6])
}

fn node<S: Scalar>(t: S, h: S, num: i64, den: i64) -> (r: S)
    requires
        den != 0,
    ensures
        r == node_spec(t, h, num, den),
{
    t.add(S::ratio(num, den).mul(h))
}

impl<S: Scalar> Integrator<S> for RK2<S> {
    open spec fn scheme(&self) -> Scheme {
        Scheme::Midpoint
    }

    open spec fn step_size(&self) -> S {
        self.0
    }

    fn integrate<I, F: Derivative<S, I>>(&self, d_func: &F, time: S, state0: &Vec<S>, inputs: &I) -> (r: Vec<S>) {
        let h = self.0;
        let mut ks: Vec<Vec<S>> = Vec::new();
        let k1 = d_func.eval(time, state0, inputs);
        ks.push(k1);
        let row2: Vec<Term> = vec![(0usize, 1i64, 2i64)];
        assert(row2@ =~= seq![(0usize, 1i64, 2i64)]);
        assert(views(ks@) =~= seq![k1@]);
        let x2 = stage(state0, h, &row2, &ks);
        let k2 = d_func.eval(node(time, h, 1, 2), &x2, inputs);
        ks.push(k2);
        let fin: Vec<Term> = vec![(1usize, 1i64, 1i64)];
        assert(fin@ =~= seq![(1usize, 1i64, 1i64)]);
        assert(views(ks@) =~= seq![k1@, k2@]);
        stage(state0, h, &fin, &ks)
    }
}

impl<S: Scalar> Integrator<S> for RK5<S> {
    open spec fn scheme(&self) -> Scheme {
        Scheme::SixStage
    }

    open spec fn step_size(&self) -> S {
        self.0
    }

    fn integrate<I, F: Derivative<S, I>>(&self, d_func: &F, time: S, state0: &Vec<S>, inputs: &I) -> (r: Vec<S>) {
        let h = self.0;
        let mut ks: Vec<Vec<S>> = Vec::new();
        let k1 = d_func.eval(time, state0, inputs);
        ks.push(k1);
        assert(views(ks@) =~= seq![k1@]);

        let row2: Vec<Term> = vec![(0usize, 1i64, 3i64)];
        assert(row2@ =~= rk5_row2());
        let x2 = stage(state0, h, &row2, &ks);
        let k2 = d_func.eval(node(time, h, 1, 3), &x2, inputs);
        ks.push(k2);
        assert(views(ks@) =~= seq![k1@, k2@]);

        let row3: Vec<Term> = vec![(0usize, 4i64, 25i64), (1usize, 6i64, 25i64)];
        assert(row3@ =~= rk5_row3());
        let x3 = stage(state0, h, &row3, &ks);
        let k3 = d_func.eval(node(time, h, 2, 25), &x3, inputs);
        ks.push(k3);
        assert(views(ks@) =~= seq![k1@, k2@, k3@]);

        let row4: Vec<Term> = vec![(0usize, 1i64, 4i64), (1usize, -3i64, 1i64), (2usize, 15i64, 4i64)];
        assert(row4@ =~= rk5_row4());
        let x4 = stage(state0, h, &row4, &ks);
        let k4 = d_func.eval(node(time, h, 1, 1), &x4, inputs);
        ks.push(k4);
        assert(views(ks@) =~= seq![k1@, k2@, k3@, k4@]);

        let row5: Vec<Term> = vec![
            (0usize, 2i64, 27i64),
            (1usize, 10i64, 9i64),
            (2usize, -50i64, 81i64),
            (3usize, 8i64, 81i64),
        ];
        assert(row5@ =~= rk5_row5());
        let x5 = stage(state0, h, &row5, &ks);
        let k5 = d_func.eval(node(time, h, 2, 3), &x5, inputs);
        ks.push(k5);
        assert(views(ks@) =~= seq![k1@, k2@, k3@, k4@, k5@]);

        let row6: Vec<Term> = vec![
            (0usize, 2i64, 25i64),
            (1usize, 12i64, 25i64),
            (2usize, 2i64, 15i64),
            (3usize, 8i64, 75i64),
        ];
        assert(row6@ =~= rk5_row6());
        let x6 = stage(state0, h, &row6, &ks);
        let k6 = d_func.eval(node(time, h, 4, 5), &x6, inputs);
        ks.push(k6);
        assert(views(ks@) =~= seq![k1@, k2@, k3@, k4@, k5@, k6@]);

        let weights: Vec<Term> = vec![
            (0usize, 23i64, 192i64),
            (2usize, 125i64, 192i64),
            (4usize, -27i64, 64i64),
            (5usize, 125i64, 192i64),
        ];
        assert(weights@ =~= rk5_weights());
        stage(state0, h, &weights, &ks)
    }
}

} // verus!
