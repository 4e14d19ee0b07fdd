//! The number type that expressions are evaluated over.
use vstd::prelude::*;

verus! {

/// Scalar arithmetic supplied by the caller.
///
/// The engine never inspects a scalar: every value and derivative that it
/// produces is obtained through these operations, so domain errors follow
/// whatever the implementing type does (IEEE-754 types yield `NaN` or an
/// infinity).
///
/// Each operation is tied to a spec function of the same name with a `spec_`
/// prefix. These state no numeric law: any implementation meets them as long
/// as each operation's result depends on its arguments alone, as the IEEE-754
/// operations of `f32` and `f64` do. The contracts of evaluation are stated
/// over these names.
pub trait Scalar: Sized + Copy {
    /// The additive identity.
    const ZERO: Self;

    /// The multiplicative identity.
    const ONE: Self;

    /// One half, the exponent of a square root.
    const HALF: Self;

    spec fn spec_sum(self, o: Self) -> Self;

    spec fn spec_difference(self, o: Self) -> Self;

    spec fn spec_product(self, o: Self) -> Self;

    spec fn spec_quotient(self, o: Self) -> Self;

    spec fn spec_negated(self) -> Self;

    spec fn spec_powf(self, n: Self) -> Self;

    spec fn spec_exp(self) -> Self;

    spec fn spec_ln(self) -> Self;

    spec fn spec_sin_cos(self) -> (Self, Self);

    spec fn spec_atan(self) -> Self;

    /// `self + o`.
    fn sum(self, o: Self) -> (r: Self)
        ensures
            r == self.spec_sum(o),
    ;

    /// `self - o`.
    fn difference(self, o: Self) -> (r: Self)
        ensures
            r == self.spec_difference(o),
    ;

    /// `self * o`.
    fn product(self, o: Self) -> (r: Self)
        ensures
            r == self.spec_product(o),
    ;

    /// `self / o`.
    fn quotient(self, o: Self) -> (r: Self)
        ensures
            r == self.spec_quotient(o),
    ;

    /// `-self`.
    fn negated(self) -> (r: Self)
        ensures
            r == self.spec_negated(),
    ;

    /// `self` raised to the real power `n`.
    fn powf(self, n: Self) -> (r: Self)
        ensures
            r == self.spec_powf(n),
    ;

    /// `e^self`.
    fn exp(self) -> (r: Self)
        ensures
            r == self.spec_exp(),
    ;

    /// The natural logarithm of `self`.
    fn ln(self) -> (r: Self)
        ensures
            r == self.spec_ln(),
    ;

    /// The sine and the cosine of `self`, in that order.
    fn sin_cos(self) -> (r: (Self, Self))
        ensures
            r == self.spec_sin_cos(),
    ;

    /// The arctangent of `self`.
    fn atan(self) -> (r: Self)
        ensures
            r == self.spec_atan(),
    ;
}

} // verus!
