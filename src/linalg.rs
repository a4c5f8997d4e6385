//! Three-vectors and 3×3 matrices over a [`Scalar`], with the products that
//! the derivative models need. Each exec function evaluates its spec
//! counterpart term by term, left to right.
use vstd::prelude::*;

use vstd::arithmetic::mul::{lemma_mul_is_associative, lemma_mul_is_commutative, lemma_mul_is_distributive_sub};

use crate::scalar::Scalar;

verus! {

/// A 3×3 matrix held as its three columns.
#[derive(Clone, Copy)]
pub struct Mat3<S> {
    pub c0: [S; 3],
    pub c1: [S; 3],
    pub c2: [S; 3],
}

pub open spec fn dot_spec<S: Scalar>(a: [S; 3], b: [S; 3]) -> S {
    S::add_spec(
        S::add_spec(S::mul_spec(a[0], b[0]), S::mul_spec(a[1], b[1])),
        S::mul_spec(a[2], b[2]),
    )
}

pub open spec fn cross_spec<S: Scalar>(a: [S; 3], b: [S; 3]) -> [S; 3] {
    [
        S::sub_spec(S::mul_spec(a[1], b[2]), S::mul_spec(a[2], b[1])),
        S::sub_spec(S::mul_spec(a[2], b[0]), S::mul_spec(a[0], b[2])),
        S::sub_spec(S::mul_spec(a[0], b[1]), S::mul_spec(a[1], b[0])),
    ]
}

/// `m · v`, each component summed over the columns in order.
pub open spec fn mat_vec_spec<S: Scalar>(m: Mat3<S>, v: [S; 3]) -> [S; 3] {
    [
        S::add_spec(
            S::add_spec(S::mul_spec(m.c0[0], v[0]), S::mul_spec(m.c1[0], v[1])),
            S::mul_spec(m.c2[0], v[2]),
        ),
        S::add_spec(
            S::add_spec(S::mul_spec(m.c0[1], v[0]), S::mul_spec(m.c1[1], v[1])),
            S::mul_spec(m.c2[1], v[2]),
        ),
        S::add_spec(
            S::add_spec(S::mul_spec(m.c0[2], v[0]), S::mul_spec(m.c1[2], v[1])),
            S::mul_spec(m.c2[2], v[2]),
        ),
    ]
}

/// Determinant as the scalar triple product of the columns.
pub open spec fn det_spec<S: Scalar>(m: Mat3<S>) -> S {
    dot_spec(m.c0, cross_spec(m.c1, m.c2))
}

pub open spec fn scale_div_spec<S: Scalar>(a: [S; 3], d: S) -> [S; 3] {
    [S::div_spec(a[0], d), S::div_spec(a[1], d), S::div_spec(a[2], d)]
}

/// Inverse by the adjugate: the rows of the inverse are the pairwise cross
/// products of the columns, each divided by the determinant. Held as
/// columns, like every `Mat3`.
pub open spec fn inv_spec<S: Scalar>(m: Mat3<S>) -> Mat3<S> {
    let d = det_spec(m);
    let r0 = scale_div_spec(cross_spec(m.c1, m.c2), d);
    let r1 = scale_div_spec(cross_spec(m.c2, m.c0), d);
    let r2 = scale_div_spec(cross_spec(m.c0, m.c1), d);
    Mat3 { c0: [r0[0], r1[0], r2[0]], c1: [r0[1], r1[1], r2[1]], c2: [r0[2], r1[2], r2[2]] }
}

pub fn dot<S: Scalar>(a: &[S; 3], b: &[S; 3]) -> (r: S)
    ensures
        r == dot_spec(*a, *b),
{
    a[0].mul(b[0]).add(a[1].mul(b[1])).add(a[2].mul(b[2]))
}

pub fn cross<S: Scalar>(a: &[S; 3], b: &[S; 3]) -> (r: [S; 3])
    ensures
        r == cross_spec(*a, *b),
{
    [
        a[1].mul(b[2]).sub(a[2].mul(b[1])),
        a[2].mul(b[0]).sub(a[0].mul(b[2])),
        a[0].mul(b[1]).sub(a[1].mul(b[0])),
    ]
}

pub fn mat_vec<S: Scalar>(m: &Mat3<S>, v: &[S; 3]) -> (r: [S; 3])
    ensures
        r == mat_vec_spec(*m, *v),
{
    [
        m.c0[0].mul(v[0]).add(m.c1[0].mul(v[1])).add(m.c2[0].mul(v[2])),
        m.c0[1].mul(v[0]).add(m.c1[1].mul(v[1])).add(m.c2[1].mul(v[2])),
        m.c0[2].mul(v[0]).add(m.c1[2].mul(v[1])).add(m.c2[2].mul(v[2])),
    ]
}

pub fn det<S: Scalar>(m: &Mat3<S>) -> (r: S)
    ensures
        r == det_spec(*m),
{
    let yz = cross(&m.c1, &m.c2);
    dot(&m.c0, &yz)
}

fn scale_div<S: Scalar>(a: &[S; 3], d: S) -> (r: [S; 3])
    ensures
        r == scale_div_spec(*a, d),
{
    [a[0].div(d), a[1].div(d), a[2].div(d)]
}

/// The inverse of `m` by the adjugate. It means something only where the
/// determinant is not zero; configurations are checked for that up front.
pub fn inv_3x3<S: Scalar>(m: &Mat3<S>) -> (r: Mat3<S>)
    ensures
        r == inv_spec(*m),
{
    let ijx = cross(&m.c1, &m.c2);
    let ijy = cross(&m.c2, &m.c0);
    let ijz = cross(&m.c0, &m.c1);
    let d = dot(&m.c0, &ijx);
    let r0 = scale_div(&ijx, d);
    let r1 = scale_div(&ijy, d);
    let r2 = scale_div(&ijz, d);
    Mat3 { c0: [r0[0], r1[0], r2[0]], c1: [r0[1], r1[1], r2[1]], c2: [r0[2], r1[2], r2[2]] }
}

/// `a · b` in exact integer arithmetic.
pub open spec fn dot_exact(a: Seq<int>, b: Seq<int>) -> int {
    a[0] * b[0] + a[1] * b[1] + a[2] * b[2]
}

/// `a × b` in exact integer arithmetic.
pub open spec fn cross_exact(a: Seq<int>, b: Seq<int>) -> Seq<int> {
    seq![a[1] * b[2] - a[2] * b[1], a[2] * b[0] - a[0] * b[2], a[0] * b[1] - a[1] * b[0]]
}

/// `s · a` in exact integer arithmetic.
pub open spec fn scale_exact(s: int, a: Seq<int>) -> Seq<int> {
    seq![s * a[0], s * a[1], s * a[2]]
}

pub proof fn lemma_swap(a: int, x: int, y: int)
    ensures
        a * (x * y) == x * (a * y),
{
    lemma_mul_is_associative(a, x, y);
    lemma_mul_is_commutative(a, x);
    lemma_mul_is_associative(x, a, y);
}

/// Both factors of a cross product are orthogonal to it.
pub proof fn lemma_cross_orthogonal(a: Seq<int>, b: Seq<int>)
    requires
        a.len() == 3,
        b.len() == 3,
    ensures
        dot_exact(a, cross_exact(a, b)) == 0,
        dot_exact(b, cross_exact(a, b)) == 0,
{
    let c = cross_exact(a, b);
    lemma_mul_is_distributive_sub(a[0], a[1] * b[2], a[2] * b[1]);
    lemma_mul_is_distributive_sub(a[1], a[2] * b[0], a[0] * b[2]);
    lemma_mul_is_distributive_sub(a[2], a[0] * b[1], a[1] * b[0]);
    lemma_swap(a[0], a[1], b[2]);
    lemma_swap(a[0], a[2], b[1]);
    lemma_swap(a[1], a[2], b[0]);
    lemma_mul_is_distributive_sub(b[0], a[1] * b[2], a[2] * b[1]);
    lemma_mul_is_distributive_sub(b[1], a[2] * b[0], a[0] * b[2]);
    lemma_mul_is_distributive_sub(b[2], a[0] * b[1], a[1] * b[0]);
    lemma_swap(b[0], a[1], b[2]);
    lemma_swap(b[2], a[1], b[0]);
    lemma_swap(b[0], a[2], b[1]);
    lemma_swap(b[1], a[2], b[0]);
    lemma_swap(b[1], a[0], b[2]);
    lemma_swap(b[2], a[0], b[1]);
    lemma_mul_is_commutative(b[0], b[2]);
    lemma_mul_is_commutative(b[0], b[1]);
    lemma_mul_is_commutative(b[1], b[2]);
}

/// A vector's cross product with a multiple of itself is zero.
pub proof fn lemma_cross_parallel(r: Seq<int>, s: int)
    requires
        r.len() == 3,
    ensures
        cross_exact(r, scale_exact(s, r)) == seq![0int, 0int, 0int],
{
    lemma_swap(r[1], s, r[2]);
    lemma_swap(r[2], s, r[1]);
    lemma_swap(r[2], s, r[0]);
    lemma_swap(r[0], s, r[2]);
    lemma_swap(r[0], s, r[1]);
    lemma_swap(r[1], s, r[0]);
    lemma_mul_is_commutative(r[1], r[2]);
    lemma_mul_is_commutative(r[0], r[2]);
    lemma_mul_is_commutative(r[0], r[1]);
    assert(cross_exact(r, scale_exact(s, r)) =~= seq![0int, 0int, 0int]);
}

} // verus!
