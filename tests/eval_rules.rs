use autodiff::{Const, Expr, Fn, Scalar, Var};

#[derive(Clone, Copy, Debug, PartialEq)]
struct F(f32);

impl Scalar for F {
    const ZERO: F = F(0.0);
    const ONE: F = F(1.0);
    const HALF: F = F(0.5);

    fn sum(self, o: F) -> F {
        F(self.0 + o.0)
    }

    fn difference(self, o: F) -> F {
        F(self.0 - o.0)
    }

    fn product(self, o: F) -> F {
        F(self.0 * o.0)
    }

    fn quotient(self, o: F) -> F {
        F(self.0 / o.0)
    }

    fn negated(self) -> F {
        F(-self.0)
    }

    fn powf(self, n: F) -> F {
        F(self.0.powf(n.0))
    }

    fn exp(self) -> F {
        F(self.0.exp())
    }

    fn ln(self) -> F {
        F(self.0.ln())
    }

    fn sin_cos(self) -> (F, F) {
        let (s, c) = self.0.sin_cos();
        (F(s), F(c))
    }

    fn atan(self) -> F {
        F(self.0.atan())
    }

    // The compiled library also asks for the specification forms of the
    // operations; each is the operation itself.

    fn spec_sum(self, o: F) -> F {
        F(self.0 + o.0)
    }

    fn spec_difference(self, o: F) -> F {
        F(self.0 - o.0)
    }

    fn spec_product(self, o: F) -> F {
        F(self.0 * o.0)
    }

    fn spec_quotient(self, o: F) -> F {
        F(self.0 / o.0)
    }

    fn spec_negated(self) -> F {
        F(-self.0)
    }

    fn spec_powf(self, n: F) -> F {
        F(self.0.powf(n.0))
    }

    fn spec_exp(self) -> F {
        F(self.0.exp())
    }

    fn spec_ln(self) -> F {
        F(self.0.ln())
    }

    fn spec_sin_cos(self) -> (F, F) {
        let (s, c) = self.0.sin_cos();
        (F(s), F(c))
    }

    fn spec_atan(self) -> F {
        F(self.0.atan())
    }
}

fn x() -> Expr<Var> {
    Expr::variable()
}

fn k(v: f32) -> Const<F> {
    Const::new(F(v))
}

fn at<T: Fn<F>>(e: T, input: f32) -> (f32, f32) {
    let (v, d) = e.eval(F(input));
    (v.0, d.0)
}

fn close(a: f32, b: f32) -> bool {
    (a - b).abs() <= 1e-5 * (1.0 + b.abs())
}

#[test]
fn variable_is_identity() {
    for v in [-3.5f32, 0.0, 1.0, 2.25, 1e10] {
        assert_eq!(at(x(), v), (v, 1.0));
        assert_eq!(at(Var, v), (v, 1.0));
    }
}

#[test]
fn constant_has_zero_derivative() {
    for v in [-3.5f32, 0.0, 7.0] {
        assert_eq!(at(k(4.5), v), (4.5, 0.0));
        assert_eq!(at(k(-2.0), v), (-2.0, 0.0));
    }
}

#[test]
fn derivative_of_sum_is_sum_of_derivatives() {
    let f = x().pow(F(2.0));
    let g = x().sin();
    for v in [0.5f32, 1.0, 2.0, -1.5] {
        let (_, df) = at(f, v);
        let (_, dg) = at(g, v);
        let (_, dsum) = at(f + g, v);
        assert_eq!(dsum, df + dg);
    }
}

#[test]
fn derivative_of_scaled_expression_is_scaled() {
    let f = x().pow(F(3.0));
    for v in [0.5f32, 1.0, 2.0, -1.5] {
        let (_, df) = at(f, v);
        let (_, dcf) = at(k(2.5) * f, v);
        assert_eq!(dcf, 2.5 * df);
    }
}

#[test]
fn product_rule() {
    let f = x();
    let g = k(2.0) * x();
    assert_eq!(at(f * g, 3.0), (18.0, 12.0));
}

#[test]
fn power_rule() {
    assert_eq!(at(x().pow(F(3.0)), 2.0), (8.0, 12.0));
}

#[test]
fn composition_chain_rule() {
    let f = x().pow(F(2.0));
    let g = k(3.0) * x();
    assert_eq!(at(f.compose(g), 2.0), (36.0, 36.0));
}

#[test]
fn composition_evaluates_outer_at_inner_value() {
    // exp(x + 1) at 0: value e, derivative e.
    let e = x().exp().compose(x() + k(1.0));
    let (v, d) = at(e, 0.0);
    assert!(close(v, std::f32::consts::E));
    assert!(close(d, std::f32::consts::E));
}

#[test]
fn sine_squared_plus_cosine_squared_is_one() {
    let e = x().sin() * x().sin() + x().cos() * x().cos();
    for v in [-10.0f32, -1.0, 0.0, 0.3, 1.0, 2.5, 100.0] {
        let (value, derivative) = at(e, v);
        assert!(close(value, 1.0));
        assert!(derivative.abs() <= 1e-5);
    }
}

#[test]
fn division_by_zero_gives_special_values() {
    let (v, d) = at(k(1.0) / x(), 0.0);
    assert!(v.is_infinite() || v.is_nan());
    assert!(d.is_infinite() || d.is_nan());
}

#[test]
fn evaluation_is_deterministic() {
    let e = (x().pow(F(3.0)) / k(2.0) + (k(2.0) * x()).sin()).compose(x() / k(3.0) - k(5.0));
    for v in [25.0f32, -1.0, 0.125] {
        let (a, da) = at(e, v);
        let (b, db) = at(e, v);
        assert_eq!(a.to_bits(), b.to_bits());
        assert_eq!(da.to_bits(), db.to_bits());
    }
}

#[test]
fn difference_rule() {
    assert_eq!(at(x().pow(F(2.0)) - x(), 3.0), (6.0, 5.0));
    assert_eq!(at(x() - k(1.5), 3.0), (1.5, 1.0));
    assert_eq!(at(k(10.0) - x(), 3.0), (7.0, -1.0));
}

#[test]
fn negation_rule() {
    assert_eq!(at(-(x() * x()), 3.0), (-9.0, -6.0));
}

#[test]
fn quotient_rule() {
    // x / (x + 1) at 1: value 1/2, derivative 1 / (x + 1)^2 = 1/4.
    assert_eq!(at(x() / (x() + k(1.0)), 1.0), (0.5, 0.25));
    assert_eq!(at(x() / k(4.0), 2.0), (0.5, 0.25));
    // 1 / x at 2: value 1/2, derivative -1/4.
    assert_eq!(at(k(1.0) / x(), 2.0), (0.5, -0.25));
}

#[test]
fn scalar_on_either_side_of_sum_and_product() {
    assert_eq!(at(x() + k(2.0), 3.0), (5.0, 1.0));
    assert_eq!(at(k(2.0) + x(), 3.0), (5.0, 1.0));
    assert_eq!(at(x() * k(2.0), 3.0), (6.0, 2.0));
    assert_eq!(at(k(2.0) * x(), 3.0), (6.0, 2.0));
}

#[test]
fn square_root_has_exponent_one_half() {
    assert_eq!(x().sqrt::<F>().expr.order, F(0.5));
}

#[test]
fn square_root_is_half_power() {
    let (v, d) = at(x().sqrt(), 4.0);
    assert_eq!(v, 2.0);
    assert_eq!(d, 0.25);
    assert_eq!(at(x().sqrt(), 9.0), at(x().pow(F(0.5)), 9.0));
}

#[test]
fn exponential_rule() {
    assert_eq!(at(x().exp(), 0.0), (1.0, 1.0));
    let (v, d) = at((k(2.0) * x()).exp(), 1.0);
    let e2 = 2.0f32.exp();
    assert!(close(v, e2));
    assert!(close(d, 2.0 * e2));
}

#[test]
fn logarithm_rule() {
    assert_eq!(at(x().ln(), 1.0), (0.0, 1.0));
    let (v, d) = at(x().ln(), 4.0);
    assert!(close(v, 4.0f32.ln()));
    assert_eq!(d, 0.25);
}

#[test]
fn logarithm_outside_its_domain() {
    let (v, _) = at(x().ln(), 0.0);
    assert!(v.is_infinite() && v < 0.0);
    let (v, _) = at(x().ln(), -1.0);
    assert!(v.is_nan());
}

#[test]
fn sine_and_cosine_rules() {
    assert_eq!(at(x().sin(), 0.0), (0.0, 1.0));
    assert_eq!(at(x().cos(), 0.0), (1.0, 0.0));
    let v = 0.7f32;
    let (s, ds) = at(x().sin(), v);
    let (c, dc) = at(x().cos(), v);
    assert!(close(s, v.sin()) && close(ds, v.cos()));
    assert!(close(c, v.cos()) && close(dc, -v.sin()));
}

#[test]
fn arctangent_rule() {
    assert_eq!(at(x().atan(), 0.0), (0.0, 1.0));
    let (v, d) = at(x().atan(), 1.0);
    assert!(close(v, std::f32::consts::FRAC_PI_4));
    assert_eq!(d, 0.5);
}

#[test]
fn chain_rule_through_nested_transforms() {
    // sin(2x) at 0: value 0, derivative 2.
    assert_eq!(at((k(2.0) * x()).sin(), 0.0), (0.0, 2.0));
    // (3x + 1)^2 at 1: value 16, derivative 2 * 4 * 3 = 24.
    assert_eq!(at((k(3.0) * x() + k(1.0)).pow(F(2.0)), 1.0), (16.0, 24.0));
}

#[test]
fn not_a_number_propagates() {
    let (v, d) = at(x().ln() + k(1.0), -1.0);
    assert!(v.is_nan());
    assert!(d.is_finite() || d.is_nan());
    let (v, _) = at((x().ln() * k(2.0)).exp(), -1.0);
    assert!(v.is_nan());
}
