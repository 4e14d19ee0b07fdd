//! Evaluation of an expression: its value and its first derivative at a point.
use vstd::prelude::*;
use crate::expr::Expr;
use crate::node::{
    AddOp, AtanOp, ComposeOp, Const, CosOp, DivOp, ExpOp, LnOp, MulOp, NegOp, PowOp, SinOp, SubOp, Var,
};
use crate::scalar::Scalar;

verus! {

/// A differentiable function of one variable.
///
/// `eval(x)` returns the pair `(f(x), f'(x))`, computed in one bottom-up pass
/// over the expression tree with the differentiation rule of each node.
pub trait Fn<S: Scalar>: Sized {
    /// The pair `(f(x), f'(x))` that `eval` returns at `input`.
    spec fn spec_eval(self, input: S) -> (S, S);

    fn eval(self, input: S) -> (r: (S, S))
        ensures
            r == self.spec_eval(input),
    ;
}

// f(x) = x, f'(x) = 1
impl<S: Scalar> Fn<S> for Var {
    open spec fn spec_eval(self, input: S) -> (S, S) {
        (input, S::ONE)
    }

    fn eval(self, input: S) -> (r: (S, S)) {
        (input, S::ONE)
    }
}

// f(x) = k, f'(x) = 0
impl<S: Scalar> Fn<S> for Const<S> {
    open spec fn spec_eval(self, input: S) -> (S, S) {
        (self.value, S::ZERO)
    }

    fn eval(self, input: S) -> (r: (S, S)) {
        (self.value, S::ZERO)
    }
}

// f(x) = u + v, f'(x) = u' + v'
impl<S: Scalar, T1: Fn<S>, T2: Fn<S>> Fn<S> for AddOp<T1, T2> {
    open spec fn spec_eval(self, input: S) -> (S, S) {
        let (u, du) = self.lhs.spec_eval(input);
        let (v, dv) = self.rhs.spec_eval(input);
        (u.spec_sum(v), du.spec_sum(dv))
    }

    fn eval(self, input: S) -> (r: (S, S)) {
        let (u, du) = self.lhs.eval(input);
        let (v, dv) = self.rhs.eval(input);
        (u.sum(v), du.sum(dv))
    }
}

// f(x) = u - v, f'(x) = u' - v'
impl<S: Scalar, T1: Fn<S>, T2: Fn<S>> Fn<S> for SubOp<T1, T2> {
    open spec fn spec_eval(self, input: S) -> (S, S) {
        let (u, du) = self.lhs.spec_eval(input);
        let (v, dv) = self.rhs.spec_eval(input);
        (u.spec_difference(v), du.spec_difference(dv))
    }

    fn eval(self, input: S) -> (r: (S, S)) {
        let (u, du) = self.lhs.eval(input);
        let (v, dv) = self.rhs.eval(input);
        (u.difference(v), du.difference(dv))
    }
}

// f(x) = -u, f'(x) = -u'
impl<S: Scalar, T: Fn<S>> Fn<S> for NegOp<T> {
    open spec fn spec_eval(self, input: S) -> (S, S) {
        let (y, dy) = self.expr.spec_eval(input);
        (y.spec_negated(), dy.spec_negated())
    }

    fn eval(self, input: S) -> (r: (S, S)) {
        let (y, dy) = self.expr.eval(input);
        (y.negated(), dy.negated())
    }
}

// f(x) = uv, f'(x) = uv' + vu'
impl<S: Scalar, T1: Fn<S>, T2: Fn<S>> Fn<S> for MulOp<T1, T2> {
    open spec fn spec_eval(self, input: S) -> (S, S) {
        let (u, du) = self.lhs.spec_eval(input);
        let (v, dv) = self.rhs.spec_eval(input);
        (u.spec_product(v), u.spec_product(dv).spec_sum(v.spec_product(du)))
    }

    fn eval(self, input: S) -> (r: (S, S)) {
        let (u, du) = self.lhs.eval(input);
        let (v, dv) = self.rhs.eval(input);
        (u.product(v), u.product(dv).sum(v.product(du)))
    }
}

// f(x) = u / v, f'(x) = (u'v - v'u) / v^2
impl<S: Scalar, T1: Fn<S>, T2: Fn<S>> Fn<S> for DivOp<T1, T2> {
    open spec fn spec_eval(self, input: S) -> (S, S) {
        let (u, du) = self.lhs.spec_eval(input);
        let (v, dv) = self.rhs.spec_eval(input);
        (
            u.spec_quotient(v),
            du.spec_product(v).spec_difference(dv.spec_product(u)).spec_quotient(v.spec_product(v)),
        )
    }

    fn eval(self, input: S) -> (r: (S, S)) {
        let (u, du) = self.lhs.eval(input);
        let (v, dv) = self.rhs.eval(input);
        (u.quotient(v), du.product(v).difference(dv.product(u)).quotient(v.product(v)))
    }
}

// f(x) = u^n, f'(x) = u' n u^(n - 1)
impl<S: Scalar, T: Fn<S>> Fn<S> for PowOp<T, S> {
    open spec fn spec_eval(self, input: S) -> (S, S) {
        let (y, dy) = self.expr.spec_eval(input);
        let n = self.order;
        (y.spec_powf(n), dy.spec_product(n).spec_product(y.spec_powf(n.spec_difference(S::ONE))))
    }

    fn eval(self, input: S) -> (r: (S, S)) {
        let (y, dy) = self.expr.eval(input);
        let n = self.order;
        (y.powf(n), dy.product(n).product(y.powf(n.difference(S::ONE))))
    }
}

// f(x) = e^u, f'(x) = u' e^u
impl<S: Scalar, T: Fn<S>> Fn<S> for ExpOp<T> {
    open spec fn spec_eval(self, input: S) -> (S, S) {
        let (y, dy) = self.expr.spec_eval(input);
        (y.spec_exp(), dy.spec_product(y.spec_exp()))
    }

    fn eval(self, input: S) -> (r: (S, S)) {
        let (y, dy) = self.expr.eval(input);
        let exp = y.exp();
        (exp, dy.product(exp))
    }
}

// f(x) = sin(u), f'(x) = u' cos(u)
impl<S: Scalar, T: Fn<S>> Fn<S> for SinOp<T> {
    open spec fn spec_eval(self, input: S) -> (S, S) {
        let (y, dy) = self.expr.spec_eval(input);
        let (sin, cos) = y.spec_sin_cos();
        (sin, dy.spec_product(cos))
    }

    fn eval(self, input: S) -> (r: (S, S)) {
        let (y, dy) = self.expr.eval(input);
        let (sin, cos) = y.sin_cos();
        (sin, dy.product(cos))
    }
}

// f(x) = cos(u), f'(x) = -u' sin(u)
impl<S: Scalar, T: Fn<S>> Fn<S> for CosOp<T> {
    open spec fn spec_eval(self, input: S) -> (S, S) {
        let (y, dy) = self.expr.spec_eval(input);
        let (sin, cos) = y.spec_sin_cos();
        (cos, dy.spec_product(sin.spec_negated()))
    }

    fn eval(self, input: S) -> (r: (S, S)) {
        let (y, dy) = self.expr.eval(input);
        let (sin, cos) = y.sin_cos();
        (cos, dy.product(sin.negated()))
    }
}

// f(x) = atan(u), f'(x) = u' / (1 + u^2)
impl<S: Scalar, T: Fn<S>> Fn<S> for AtanOp<T> {
    open spec fn spec_eval(self, input: S) -> (S, S) {
        let (y, dy) = self.expr.spec_eval(input);
        (y.spec_atan(), dy.spec_quotient(S::ONE.spec_sum(y.spec_product(y))))
    }

    fn eval(self, input: S) -> (r: (S, S)) {
        let (y, dy) = self.expr.eval(input);
        (y.atan(), dy.quotient(S::ONE.sum(y.product(y))))
    }
}

// f(x) = ln(u), f'(x) = u' / u
impl<S: Scalar, T: Fn<S>> Fn<S> for LnOp<T> {
    open spec fn spec_eval(self, input: S) -> (S, S) {
        let (y, dy) = self.expr.spec_eval(input);
        (y.spec_ln(), dy.spec_quotient(y))
    }

    fn eval(self, input: S) -> (r: (S, S)) {
        let (y, dy) = self.expr.eval(input);
        (y.ln(), dy.quotient(y))
    }
}

// f(x) = g(h(x)), f'(x) = h'(x) g'(h(x)): the outer function is evaluated at
// the inner one's value, so the inner one goes first.
impl<S: Scalar, T1: Fn<S>, T2: Fn<S>> Fn<S> for ComposeOp<T1, T2> {
    open spec fn spec_eval(self, input: S) -> (S, S) {
        let (h, dh) = self.rhs.spec_eval(input);
        let (g, dg) = self.lhs.spec_eval(h);
        (g, dh.spec_product(dg))
    }

    fn eval(self, input: S) -> (r: (S, S)) {
        let (h, dh) = self.rhs.eval(input);
        let (g, dg) = self.lhs.eval(h);
        (g, dh.product(dg))
    }
}

impl<S: Scalar, T: Fn<S>> Fn<S> for Expr<T> {
    open spec fn spec_eval(self, input: S) -> (S, S) {
        self.expr.spec_eval(input)
    }

    fn eval(self, input: S) -> (r: (S, S)) {
        self.expr.eval(input)
    }
}

} // verus!
