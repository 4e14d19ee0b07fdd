//! Forward-mode automatic differentiation of single-variable expressions.
//!
//! An expression is built bottom-up from the free variable
//! ([`Expr::variable`]) and constants ([`Const`]) with the arithmetic
//! operators and the transform methods of [`Expr`]. Each composite node owns
//! its operands by value and is never changed afterwards. [`Fn::eval`] then
//! computes the value and the first derivative at a point in one pass, over
//! any number type that implements [`Scalar`].
pub mod eval;
pub mod expr;
pub mod laws;
pub mod node;
pub mod scalar;

pub use eval::Fn;
pub use expr::Expr;
pub use node::{
    AddOp, AtanOp, ComposeOp, Const, CosOp, DivOp, ExpOp, LnOp, MulOp, NegOp, PowOp, SinOp, SubOp, Var,
};
pub use scalar::Scalar;
