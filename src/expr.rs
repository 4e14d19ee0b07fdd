//! The expression handle and the operators that build expressions.
use vstd::prelude::*;
use crate::scalar::Scalar;
use crate::node::{
    AddOp, AtanOp, ComposeOp, Const, CosOp, DivOp, ExpOp, LnOp, MulOp, NegOp, PowOp, SinOp, SubOp, Var,
};

verus! {

/// An expression of the free variable, wrapping the root node of its tree.
#[derive(Clone, Copy)]
pub struct Expr<T> {
    pub expr: T,
}

impl Expr<Var> {
    /// The identity function `f(x) = x`, the root of every expression.
    pub fn variable() -> (r: Expr<Var>)
        ensures
            r == (Expr { expr: Var }),
    {
        Expr { expr: Var }
    }
}

// Addition: of two expressions, of an expression and a constant, and of a
// constant and an expression. The `add_spec` beside each impl states
// its result: a new node that owns both operands, left operand first.
impl<T1, T2> core::ops::Add<Expr<T2>> for Expr<T1> {
    type Output = Expr<AddOp<T1, T2>>;

    fn add(self, rhs: Expr<T2>) -> Expr<AddOp<T1, T2>> {
        Expr { expr: AddOp { lhs: self.expr, rhs: rhs.expr } }
    }
}

impl<T1, T2> vstd::std_specs::ops::AddSpecImpl<Expr<T2>> for Expr<T1> {
    open spec fn obeys_add_spec() -> bool {
        true
    }

    open spec fn add_req(self, rhs: Expr<T2>) -> bool {
        true
    }

    open spec fn add_spec(self, rhs: Expr<T2>) -> Expr<AddOp<T1, T2>> {
        Expr { expr: AddOp { lhs: self.expr, rhs: rhs.expr } }
    }
}

impl<T, S> core::ops::Add<Const<S>> for Expr<T> {
    type Output = Expr<AddOp<T, Const<S>>>;

    fn add(self, rhs: Const<S>) -> Expr<AddOp<T, Const<S>>> {
        Expr { expr: AddOp { lhs: self.expr, rhs: rhs } }
    }
}

impl<T, S> vstd::std_specs::ops::AddSpecImpl<Const<S>> for Expr<T> {
    open spec fn obeys_add_spec() -> bool {
        true
    }

    open spec fn add_req(self, rhs: Const<S>) -> bool {
        true
    }

    open spec fn add_spec(self, rhs: Const<S>) -> Expr<AddOp<T, Const<S>>> {
        Expr { expr: AddOp { lhs: self.expr, rhs: rhs } }
    }
}

impl<T, S> core::ops::Add<Expr<T>> for Const<S> {
    type Output = Expr<AddOp<Const<S>, T>>;

    fn add(self, rhs: Expr<T>) -> Expr<AddOp<Const<S>, T>> {
        Expr { expr: AddOp { lhs: self, rhs: rhs.expr } }
    }
}

impl<T, S> vstd::std_specs::ops::AddSpecImpl<Expr<T>> for Const<S> {
    open spec fn obeys_add_spec() -> bool {
        true
    }

    open spec fn add_req(self, rhs: Expr<T>) -> bool {
        true
    }

    open spec fn add_spec(self, rhs: Expr<T>) -> Expr<AddOp<Const<S>, T>> {
        Expr { expr: AddOp { lhs: self, rhs: rhs.expr } }
    }
}

// Subtraction: of two expressions, of an expression and a constant, and of a
// constant and an expression. The `sub_spec` beside each impl states
// its result: a new node that owns both operands, left operand first.
impl<T1, T2> core::ops::Sub<Expr<T2>> for Expr<T1> {
    type Output = Expr<SubOp<T1, T2>>;

    fn sub(self, rhs: Expr<T2>) -> Expr<SubOp<T1, T2>> {
        Expr { expr: SubOp { lhs: self.expr, rhs: rhs.expr } }
    }
}

impl<T1, T2> vstd::std_specs::ops::SubSpecImpl<Expr<T2>> for Expr<T1> {
    open spec fn obeys_sub_spec() -> bool {
        true
    }

    open spec fn sub_req(self, rhs: Expr<T2>) -> bool {
        true
    }

    open spec fn sub_spec(self, rhs: Expr<T2>) -> Expr<SubOp<T1, T2>> {
        Expr { expr: SubOp { lhs: self.expr, rhs: rhs.expr } }
    }
}

impl<T, S> core::ops::Sub<Const<S>> for Expr<T> {
    type Output = Expr<SubOp<T, Const<S>>>;

    fn sub(self, rhs: Const<S>) -> Expr<SubOp<T, Const<S>>> {
        Expr { expr: SubOp { lhs: self.expr, rhs: rhs } }
    }
}

impl<T, S> vstd::std_specs::ops::SubSpecImpl<Const<S>> for Expr<T> {
    open spec fn obeys_sub_spec() -> bool {
        true
    }

    open spec fn sub_req(self, rhs: Const<S>) -> bool {
        true
    }

    open spec fn sub_spec(self, rhs: Const<S>) -> Expr<SubOp<T, Const<S>>> {
        Expr { expr: SubOp { lhs: self.expr, rhs: rhs } }
    }
}

impl<T, S> core::ops::Sub<Expr<T>> for Const<S> {
    type Output = Expr<SubOp<Const<S>, T>>;

    fn sub(self, rhs: Expr<T>) -> Expr<SubOp<Const<S>, T>> {
        Expr { expr: SubOp { lhs: self, rhs: rhs.expr } }
    }
}

impl<T, S> vstd::std_specs::ops::SubSpecImpl<Expr<T>> for Const<S> {
    open spec fn obeys_sub_spec() -> bool {
        true
    }

    open spec fn sub_req(self, rhs: Expr<T>) -> bool {
        true
    }

    open spec fn sub_spec(self, rhs: Expr<T>) -> Expr<SubOp<Const<S>, T>> {
        Expr { expr: SubOp { lhs: self, rhs: rhs.expr } }
    }
}

// Multiplication: of two expressions, of an expression and a constant, and of a
// constant and an expression. The `mul_spec` beside each impl states
// its result: a new node that owns both operands, left operand first.
impl<T1, T2> core::ops::Mul<Expr<T2>> for Expr<T1> {
    type Output = Expr<MulOp<T1, T2>>;

    fn mul(self, rhs: Expr<T2>) -> Expr<MulOp<T1, T2>> {
        Expr { expr: MulOp { lhs: self.expr, rhs: rhs.expr } }
    }
}

impl<T1, T2> vstd::std_specs::ops::MulSpecImpl<Expr<T2>> for Expr<T1> {
    open spec fn obeys_mul_spec() -> bool {
        true
    }

    open spec fn mul_req(self, rhs: Expr<T2>) -> bool {
        true
    }

    open spec fn mul_spec(self, rhs: Expr<T2>) -> Expr<MulOp<T1, T2>> {
        Expr { expr: MulOp { lhs: self.expr, rhs: rhs.expr } }
    }
}

impl<T, S> core::ops::Mul<Const<S>> for Expr<T> {
    type Output = Expr<MulOp<T, Const<S>>>;

    fn mul(self, rhs: Const<S>) -> Expr<MulOp<T, Const<S>>> {
        Expr { expr: MulOp { lhs: self.expr, rhs: rhs } }
    }
}

impl<T, S> vstd::std_specs::ops::MulSpecImpl<Const<S>> for Expr<T> {
    open spec fn obeys_mul_spec() -> bool {
        true
    }

    open spec fn mul_req(self, rhs: Const<S>) -> bool {
        true
    }

    open spec fn mul_spec(self, rhs: Const<S>) -> Expr<MulOp<T, Const<S>>> {
        Expr { expr: MulOp { lhs: self.expr, rhs: rhs } }
    }
}

impl<T, S> core::ops::Mul<Expr<T>> for Const<S> {
    type Output = Expr<MulOp<Const<S>, T>>;

    fn mul(self, rhs: Expr<T>) -> Expr<MulOp<Const<S>, T>> {
        Expr { expr: MulOp { lhs: self, rhs: rhs.expr } }
    }
}

impl<T, S> vstd::std_specs::ops::MulSpecImpl<Expr<T>> for Const<S> {
    open spec fn obeys_mul_spec() -> bool {
        true
    }

    open spec fn mul_req(self, rhs: Expr<T>) -> bool {
        true
    }

    open spec fn mul_spec(self, rhs: Expr<T>) -> Expr<MulOp<Const<S>, T>> {
        Expr { expr: MulOp { lhs: self, rhs: rhs.expr } }
    }
}

// Division: of two expressions, of an expression and a constant, and of a
// constant and an expression. The `div_spec` beside each impl states
// its result: a new node that owns both operands, left operand first.
impl<T1, T2> core::ops::Div<Expr<T2>> for Expr<T1> {
    type Output = Expr<DivOp<T1, T2>>;

    fn div(self, rhs: Expr<T2>) -> Expr<DivOp<T1, T2>> {
        Expr { expr: DivOp { lhs: self.expr, rhs: rhs.expr } }
    }
}

impl<T1, T2> vstd::std_specs::ops::DivSpecImpl<Expr<T2>> for Expr<T1> {
    open spec fn obeys_div_spec() -> bool {
        true
    }

    open spec fn div_req(self, rhs: Expr<T2>) -> bool {
        true
    }

    open spec fn div_spec(self, rhs: Expr<T2>) -> Expr<DivOp<T1, T2>> {
        Expr { expr: DivOp { lhs: self.expr, rhs: rhs.expr } }
    }
}

impl<T, S> core::ops::Div<Const<S>> for Expr<T> {
    type Output = Expr<DivOp<T, Const<S>>>;

    fn div(self, rhs: Const<S>) -> Expr<DivOp<T, Const<S>>> {
        Expr { expr: DivOp { lhs: self.expr, rhs: rhs } }
    }
}

impl<T, S> vstd::std_specs::ops::DivSpecImpl<Const<S>> for Expr<T> {
    open spec fn obeys_div_spec() -> bool {
        true
    }

    open spec fn div_req(self, rhs: Const<S>) -> bool {
        true
    }

    open spec fn div_spec(self, rhs: Const<S>) -> Expr<DivOp<T, Const<S>>> {
        Expr { expr: DivOp { lhs: self.expr, rhs: rhs } }
    }
}

impl<T, S> core::ops::Div<Expr<T>> for Const<S> {
    type Output = Expr<DivOp<Const<S>, T>>;

    fn div(self, rhs: Expr<T>) -> Expr<DivOp<Const<S>, T>> {
        Expr { expr: DivOp { lhs: self, rhs: rhs.expr } }
    }
}

impl<T, S> vstd::std_specs::ops::DivSpecImpl<Expr<T>> for Const<S> {
    open spec fn obeys_div_spec() -> bool {
        true
    }

    open spec fn div_req(self, rhs: Expr<T>) -> bool {
        true
    }

    open spec fn div_spec(self, rhs: Expr<T>) -> Expr<DivOp<Const<S>, T>> {
        Expr { expr: DivOp { lhs: self, rhs: rhs.expr } }
    }
}

// Negation of an expression.
impl<T> core::ops::Neg for Expr<T> {
    type Output = Expr<NegOp<T>>;

    fn neg(self) -> Expr<NegOp<T>> {
        Expr { expr: NegOp { expr: self.expr } }
    }
}

impl<T> vstd::std_specs::ops::NegSpecImpl for Expr<T> {
    open spec fn obeys_neg_spec() -> bool {
        true
    }

    open spec fn neg_req(self) -> bool {
        true
    }

    open spec fn neg_spec(self) -> Expr<NegOp<T>> {
        Expr { expr: NegOp { expr: self.expr } }
    }
}

// The named transforms: each wraps this expression, unchanged, in a new node.
impl<T> Expr<T> {
    /// This expression raised to the fixed real exponent `order`.
    pub fn pow<S>(self, order: S) -> (r: Expr<PowOp<T, S>>)
        ensures
            r == (Expr { expr: PowOp { expr: self.expr, order } }),
    {
        Expr { expr: PowOp { expr: self.expr, order } }
    }

    /// The square root of this expression: its power with exponent one half.
    pub fn sqrt<S: Scalar>(self) -> (r: Expr<PowOp<T, S>>)
        ensures
            r == (Expr { expr: PowOp { expr: self.expr, order: S::HALF } }),
    {
        Expr { expr: PowOp { expr: self.expr, order: S::HALF } }
    }

    /// The exponential of this expression.
    pub fn exp(self) -> (r: Expr<ExpOp<T>>)
        ensures
            r == (Expr { expr: ExpOp { expr: self.expr } }),
    {
        Expr { expr: ExpOp { expr: self.expr } }
    }

    /// The sine of this expression.
    pub fn sin(self) -> (r: Expr<SinOp<T>>)
        ensures
            r == (Expr { expr: SinOp { expr: self.expr } }),
    {
        Expr { expr: SinOp { expr: self.expr } }
    }

    /// The cosine of this expression.
    pub fn cos(self) -> (r: Expr<CosOp<T>>)
        ensures
            r == (Expr { expr: CosOp { expr: self.expr } }),
    {
        Expr { expr: CosOp { expr: self.expr } }
    }

    /// The arctangent of this expression.
    pub fn atan(self) -> (r: Expr<AtanOp<T>>)
        ensures
            r == (Expr { expr: AtanOp { expr: self.expr } }),
    {
        Expr { expr: AtanOp { expr: self.expr } }
    }

    /// The natural logarithm of this expression.
    pub fn ln(self) -> (r: Expr<LnOp<T>>)
        ensures
            r == (Expr { expr: LnOp { expr: self.expr } }),
    {
        Expr { expr: LnOp { expr: self.expr } }
    }

    /// This expression applied to the result of `other`: `self(other(x))`.
    pub fn compose<T1>(self, other: Expr<T1>) -> (r: Expr<ComposeOp<T, T1>>)
        ensures
            r == (Expr { expr: ComposeOp { lhs: self.expr, rhs: other.expr } }),
    {
        Expr { expr: ComposeOp { lhs: self.expr, rhs: other.expr } }
    }
}

} // verus!
