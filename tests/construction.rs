use autodiff::{Const, Expr, Var};

#[test]
fn constant_keeps_its_value() {
    assert_eq!(Const::new(7i64).value, 7);
}

#[test]
fn scalar_operands_become_constant_leaves() {
    let x: Expr<Var> = Expr::variable();
    assert_eq!((x + Const::new(3i64)).expr.rhs.value, 3);
    assert_eq!((Const::new(4i64) - x).expr.lhs.value, 4);
    assert_eq!((x * Const::new(5i64)).expr.rhs.value, 5);
    assert_eq!((Const::new(6i64) / x).expr.lhs.value, 6);
}

#[test]
fn operators_keep_operands_in_order() {
    let x: Expr<Var> = Expr::variable();
    let a = x + Const::new(1i64);
    let b = x * Const::new(2i64);
    let s = a - b;
    assert_eq!(s.expr.lhs.rhs.value, 1);
    assert_eq!(s.expr.rhs.rhs.value, 2);
    // The operands are values and remain usable.
    assert_eq!(a.expr.rhs.value, 1);
    assert_eq!(b.expr.rhs.value, 2);
}

#[test]
fn power_keeps_its_exponent() {
    let x: Expr<Var> = Expr::variable();
    assert_eq!(x.pow(3i64).expr.order, 3);
    assert_eq!((x + Const::new(1i64)).pow(-2i64).expr.expr.rhs.value, 1);
}

#[test]
fn compose_puts_the_outer_expression_first() {
    let x: Expr<Var> = Expr::variable();
    let outer = x.pow(2i64);
    let inner = x * Const::new(3i64);
    let c = outer.compose(inner);
    assert_eq!(c.expr.lhs.order, 2i64);
    assert_eq!(c.expr.rhs.rhs.value, 3i64);
}

#[test]
fn transforms_wrap_the_expression() {
    let x: Expr<Var> = Expr::variable();
    let e = x + Const::new(9i64);
    assert_eq!(e.exp().expr.expr.rhs.value, 9);
    assert_eq!(e.ln().expr.expr.rhs.value, 9);
    assert_eq!(e.sin().expr.expr.rhs.value, 9);
    assert_eq!(e.cos().expr.expr.rhs.value, 9);
    assert_eq!(e.atan().expr.expr.rhs.value, 9);
    assert_eq!((-e).expr.expr.rhs.value, 9);
}
