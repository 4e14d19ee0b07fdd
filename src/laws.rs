//! Laws of evaluation that hold whatever the scalar arithmetic is.
use vstd::prelude::*;
use vstd::std_specs::ops::{AddSpec, MulSpec};
use crate::eval::Fn;
use crate::expr::Expr;
use crate::node::{ComposeOp, Const, PowOp, Var};
use crate::scalar::Scalar;

verus! {

/// The free variable evaluates to `(x, 1)` and a constant `k` to `(k, 0)`, at
/// every input `x`, also when wrapped as an expression.
pub proof fn lemma_leaves<S: Scalar>(x: S, k: S)
    ensures
        Var.spec_eval(x) == (x, S::ONE),
        (Expr { expr: Var }).spec_eval(x) == (x, S::ONE),
        (Const { value: k }).spec_eval(x) == (k, S::ZERO),
        (Expr { expr: Const { value: k } }).spec_eval(x) == (k, S::ZERO),
{
}

/// The derivative of a sum `f + g` is the sum of the derivatives of `f` and
/// `g`, and its value is the sum of their values.
pub proof fn lemma_sum_rule<S: Scalar, T1: Fn<S>, T2: Fn<S>>(f: Expr<T1>, g: Expr<T2>, x: S)
    ensures
        f.add_spec(g).spec_eval(x).0 == f.spec_eval(x).0.spec_sum(g.spec_eval(x).0),
        f.add_spec(g).spec_eval(x).1 == f.spec_eval(x).1.spec_sum(g.spec_eval(x).1),
{
}

/// The derivative of `c * f` for a constant `c` is the product rule with a
/// zero derivative for `c`: `c * f' + f * 0`.
pub proof fn lemma_constant_multiple_rule<S: Scalar, T: Fn<S>>(c: S, f: Expr<T>, x: S)
    ensures
        (Const { value: c }).mul_spec(f).spec_eval(x) == (
            c.spec_product(f.spec_eval(x).0),
            c.spec_product(f.spec_eval(x).1).spec_sum(f.spec_eval(x).0.spec_product(S::ZERO)),
        ),
{
}

/// The product rule: `(f * g)' = f * g' + g * f'`.
pub proof fn lemma_product_rule<S: Scalar, T1: Fn<S>, T2: Fn<S>>(f: Expr<T1>, g: Expr<T2>, x: S)
    ensures
        f.mul_spec(g).spec_eval(x) == (
            f.spec_eval(x).0.spec_product(g.spec_eval(x).0),
            f.spec_eval(x).0.spec_product(g.spec_eval(x).1).spec_sum(
                g.spec_eval(x).0.spec_product(f.spec_eval(x).1),
            ),
        ),
{
}

/// The power rule on the free variable: `x^n` has derivative `1 * n * x^(n-1)`.
pub proof fn lemma_power_rule<S: Scalar>(n: S, x: S)
    ensures
        (Expr { expr: PowOp { expr: Var, order: n } }).spec_eval(x) == (
            x.spec_powf(n),
            S::ONE.spec_product(n).spec_product(x.spec_powf(n.spec_difference(S::ONE))),
        ),
{
}

/// A square root follows the power rule with exponent one half:
/// `sqrt(f)' = f' * (1/2) * f^(-1/2)`.
pub proof fn lemma_sqrt_rule<S: Scalar, T: Fn<S>>(f: Expr<T>, x: S)
    ensures
        (Expr { expr: PowOp { expr: f.expr, order: S::HALF } }).spec_eval(x) == (
            f.spec_eval(x).0.spec_powf(S::HALF),
            f.spec_eval(x).1.spec_product(S::HALF).spec_product(
                f.spec_eval(x).0.spec_powf(S::HALF.spec_difference(S::ONE)),
            ),
        ),
{
}

/// The chain rule: `f.compose(g)` takes the value of `f` at the value of `g`,
/// and its derivative is `g'(x) * f'(g(x))`.
pub proof fn lemma_chain_rule<S: Scalar, T1: Fn<S>, T2: Fn<S>>(f: Expr<T1>, g: Expr<T2>, x: S)
    ensures
        (Expr { expr: ComposeOp { lhs: f.expr, rhs: g.expr } }).spec_eval(x) == (
            f.spec_eval(g.spec_eval(x).0).0,
            g.spec_eval(x).1.spec_product(f.spec_eval(g.spec_eval(x).0).1),
        ),
{
}

/// Composition is associative in the value: `(f . g) . h` and `f . (g . h)`
/// both take `f(g(h(x)))`.
pub proof fn lemma_compose_value_associative<S: Scalar, T1: Fn<S>, T2: Fn<S>, T3: Fn<S>>(
    f: T1,
    g: T2,
    h: T3,
    x: S,
)
    ensures
        (ComposeOp { lhs: ComposeOp { lhs: f, rhs: g }, rhs: h }).spec_eval(x).0 == (ComposeOp {
            lhs: f,
            rhs: ComposeOp { lhs: g, rhs: h },
        }).spec_eval(x).0,
        (ComposeOp { lhs: f, rhs: ComposeOp { lhs: g, rhs: h } }).spec_eval(x).0 == f.spec_eval(
            g.spec_eval(h.spec_eval(x).0).0,
        ).0,
{
}

/// Evaluation is deterministic: equal expressions evaluated at equal inputs
/// give equal results, so two calls of `eval` on copies of one expression at
/// one input return the same pair.
pub proof fn lemma_eval_deterministic<S: Scalar, T: Fn<S>>(e1: Expr<T>, e2: Expr<T>, x1: S, x2: S)
    requires
        e1 == e2,
        x1 == x2,
    ensures
        e1.spec_eval(x1) == e2.spec_eval(x2),
{
}

} // verus!
