//! Earth constants of the orbital model.
use vstd::prelude::*;

use crate::scalar::Scalar;

verus! {

/// Earth's gravitational parameter, m³/s².
pub const MU_M3_PER_S2: i64 = 398600441800000;

/// Earth's equatorial radius, m.
pub const RE_M: i64 = 6378137;

pub open spec fn mu_spec<S: Scalar>() -> S {
    S::ratio_spec(MU_M3_PER_S2, 1)
}

pub open spec fn re_spec<S: Scalar>() -> S {
    S::ratio_spec(RE_M, 1)
}

pub fn mu<S: Scalar>() -> (r: S)
    ensures
        r == mu_spec::<S>(),
{
    S::ratio(MU_M3_PER_S2, 1)
}

pub fn re<S: Scalar>() -> (r: S)
    ensures
        r == re_spec::<S>(),
{
    S::ratio(RE_M, 1)
}

} // verus!
