//! The node types of an expression tree.
use vstd::prelude::*;

verus! {

/// The free variable: the identity function `f(x) = x`.
#[derive(Clone, Copy)]
pub struct Var;

/// A constant leaf: the function `f(x) = value`.
#[derive(Clone, Copy)]
pub struct Const<S> {
    pub value: S,
}

impl<S> Const<S> {
    /// The constant function with the given value.
    pub fn new(value: S) -> (r: Const<S>)
        ensures
            r.value == value,
    {
        Const { value }
    }
}

} // verus!

verus! {

/// The sum `lhs + rhs` of two sub-expressions.
#[derive(Clone, Copy)]
pub struct AddOp<T1, T2> {
    pub lhs: T1,
    pub rhs: T2,
}

/// The difference `lhs - rhs` of two sub-expressions.
#[derive(Clone, Copy)]
pub struct SubOp<T1, T2> {
    pub lhs: T1,
    pub rhs: T2,
}

/// The negation `-expr` of a sub-expression.
#[derive(Clone, Copy)]
pub struct NegOp<T> {
    pub expr: T,
}

/// The product `lhs * rhs` of two sub-expressions.
#[derive(Clone, Copy)]
pub struct MulOp<T1, T2> {
    pub lhs: T1,
    pub rhs: T2,
}

/// The quotient `lhs / rhs` of two sub-expressions.
#[derive(Clone, Copy)]
pub struct DivOp<T1, T2> {
    pub lhs: T1,
    pub rhs: T2,
}

/// `expr` raised to the fixed real exponent `order`.
#[derive(Clone, Copy)]
pub struct PowOp<T, S> {
    pub expr: T,
    pub order: S,
}

/// The exponential `e^expr`.
#[derive(Clone, Copy)]
pub struct ExpOp<T> {
    pub expr: T,
}

/// The sine of a sub-expression.
#[derive(Clone, Copy)]
pub struct SinOp<T> {
    pub expr: T,
}

/// The cosine of a sub-expression.
#[derive(Clone, Copy)]
pub struct CosOp<T> {
    pub expr: T,
}

/// The arctangent of a sub-expression.
#[derive(Clone, Copy)]
pub struct AtanOp<T> {
    pub expr: T,
}

/// The natural logarithm of a sub-expression.
#[derive(Clone, Copy)]
pub struct LnOp<T> {
    pub expr: T,
}

/// The composition `lhs(rhs(x))`: `lhs` is applied to the result of `rhs`.
#[derive(Clone, Copy)]
pub struct ComposeOp<T1, T2> {
    pub lhs: T1,
    pub rhs: T2,
}

} // verus!
