//! The numeric capability that the propagation engine computes with.
//!
//! Every formula of the engine is written over this trait, so its contracts
//! say exactly which operations are applied, to which operands, in which
//! order. The host supplies the number type (an IEEE double in practice).
use vstd::prelude::*;

verus! {

/// A real-number approximation: the operations that the integrators and the
/// derivative models apply. Each exec operation returns exactly the value of
/// its spec counterpart, so two evaluations on equal operands are equal.
pub trait Scalar: Sized + Copy {
    spec fn add_spec(a: Self, b: Self) -> Self;

    spec fn sub_spec(a: Self, b: Self) -> Self;

    spec fn mul_spec(a: Self, b: Self) -> Self;

    spec fn div_spec(a: Self, b: Self) -> Self;

    spec fn sqrt_spec(a: Self) -> Self;

    /// The number closest to `num / den`.
    spec fn ratio_spec(num: i64, den: i64) -> Self;

    spec fn is_zero_spec(a: Self) -> bool;

    spec fn is_positive_spec(a: Self) -> bool;

    fn add(self, b: Self) -> (r: Self)
        ensures
            r == Self::add_spec(self, b),
    ;

    fn sub(self, b: Self) -> (r: Self)
        ensures
            r == Self::sub_spec(self, b),
    ;

    fn mul(self, b: Self) -> (r: Self)
        ensures
            r == Self::mul_spec(self, b),
    ;

    fn div(self, b: Self) -> (r: Self)
        ensures
            r == Self::div_spec(self, b),
    ;

    fn sqrt(self) -> (r: Self)
        ensures
            r == Self::sqrt_spec(self),
    ;

    fn ratio(num: i64, den: i64) -> (r: Self)
        requires
            den != 0,
        ensures
            r == Self::ratio_spec(num, den),
    ;

    fn is_zero(self) -> (r: bool)
        ensures
            r == Self::is_zero_spec(self),
    ;

    fn is_positive(self) -> (r: bool)
        ensures
            r == Self::is_positive_spec(self),
    ;
}

} // verus!
