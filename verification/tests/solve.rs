use latex_calc::misc::math::nth_root;
use latex_calc::models::errors::ModelErrors;
use latex_calc::models::latex_models::{
    Division, Empty, LatexStructure, Minus, Node, Operant, Parentheses, Plus, Power, Root, Times,
    Value,
};
use latex_calc::number::Number;

#[test]
fn plus_pure_pure() {
    let p = Plus::new(
        Value::Pure(Number::from_int(2)),
        Value::Pure(Number::from_int(3)),
    );
    assert_eq!(p.solve().unwrap(), Number::from_int(5));
}

#[test]
fn minus_pure_pure() {
    let p = Minus::new(
        Value::Pure(Number::from_int(2)),
        Value::Pure(Number::from_int(3)),
    );
    assert_eq!(p.solve().unwrap(), Number::from_int(-1));
}

#[test]
fn plus_null_right_is_identity() {
    let p = Plus::new(Value::Pure(Number::from_int(7)), Value::Null);
    assert_eq!(p.solve().unwrap(), Number::from_int(7));
}

#[test]
fn minus_null_right_is_identity() {
    let p = Minus::new(Value::Pure(Number::from_int(7)), Value::Null);
    assert_eq!(p.solve().unwrap(), Number::from_int(7));
}

#[test]
fn times_null_right_is_identity() {
    let p = Times::new(Value::Pure(Number::from_int(7)), Value::Null);
    assert_eq!(p.solve().unwrap(), Number::from_int(7));
}

#[test]
fn plus_null_left_is_error() {
    let p = Plus::new(Value::Null, Value::Pure(Number::from_int(3)));
    let e = p.solve().unwrap_err();
    assert!(matches!(e, ModelErrors::CalculationError(_)));
    assert_eq!(
        e.message(),
        "left branch of the Plus structure may not be null"
    );
}

#[test]
fn minus_null_left_shares_plus_wording() {
    let p = Minus::new(Value::Null, Value::Pure(Number::from_int(3)));
    let e = p.solve().unwrap_err();
    assert_eq!(
        e.message(),
        "left branch of the Plus structure may not be null"
    );
}

#[test]
fn times_null_left_is_error() {
    let p = Times::new(Value::Null, Value::Pure(Number::from_int(3)));
    let e = p.solve().unwrap_err();
    assert_eq!(
        e.message(),
        "left branch of the Times structure may not be null"
    );
}

#[test]
fn times_pure_pure() {
    let p = Times::new(
        Value::Pure(Number::from_int(6)),
        Value::Pure(Number::from_int(7)),
    );
    assert_eq!(p.solve().unwrap(), Number::from_int(42));
}

#[test]
fn division_exact_half() {
    let p = Division::new(
        Value::Pure(Number::from_int(1)),
        Value::Pure(Number::from_int(2)),
    );
    assert_eq!(p.solve().unwrap(), Number::from_raw(500_000_000));
}

#[test]
fn division_by_zero_is_error() {
    let p = Division::new(
        Value::Pure(Number::from_int(9)),
        Value::Pure(Number::from_int(0)),
    );
    let e = p.solve().unwrap_err();
    assert!(matches!(e, ModelErrors::DivisionByZeroError()));
    assert_eq!(e.message(), "You cannot divide by zero");
}

#[test]
fn division_null_right_is_error() {
    let p = Division::new(Value::Pure(Number::from_int(9)), Value::Null);
    let e = p.solve().unwrap_err();
    assert_eq!(
        e.message(),
        "right branch of the Division structure may not be null"
    );
}

#[test]
fn power_whole_exponent() {
    let p = Power::new(
        Value::Pure(Number::from_int(2)),
        Value::Pure(Number::from_int(10)),
    );
    assert_eq!(p.solve().unwrap(), Number::from_int(1024));
}

#[test]
fn power_zero_exponent_is_one() {
    let p = Power::new(
        Value::Pure(Number::from_int(9)),
        Value::Pure(Number::from_int(0)),
    );
    assert_eq!(p.solve().unwrap(), Number::from_int(1));
}

#[test]
fn power_negative_exponent_is_reciprocal() {
    let p = Power::new(
        Value::Pure(Number::from_int(2)),
        Value::Pure(Number::from_int(-1)),
    );
    assert_eq!(p.solve().unwrap(), Number::from_raw(500_000_000));
}

#[test]
fn power_fractional_exponent_is_error() {
    let p = Power::new(
        Value::Pure(Number::from_int(2)),
        Value::Pure(Number::from_raw(1_500_000_000)),
    );
    let e = p.solve().unwrap_err();
    assert_eq!(e.message(), "the exponent of a power must be a whole number");
}

#[test]
fn power_negative_power_of_zero_is_error() {
    let p = Power::new(
        Value::Pure(Number::from_int(0)),
        Value::Pure(Number::from_int(-1)),
    );
    let e = p.solve().unwrap_err();
    assert_eq!(e.message(), "a negative power of zero is undefined");
}

#[test]
fn root_two_of_four() {
    let p = Root::new(
        Value::Pure(Number::from_int(2)),
        Value::Pure(Number::from_int(4)),
    );
    let v = p.solve().unwrap();
    assert_eq!(v, Number::from_int(2));
    let approx: f64 = v.raw() as f64 / 1e9;
    assert!((approx - 2.0).abs() < 1e-6);
}

#[test]
fn root_two_of_two() {
    let p = Root::new(
        Value::Pure(Number::from_int(2)),
        Value::Pure(Number::from_int(2)),
    );
    let v = p.solve().unwrap();
    let approx: f64 = v.raw() as f64 / 1e9;
    assert!((approx - 1.414213562).abs() < 1e-6);
}

#[test]
fn root_three_of_twenty_seven() {
    let p = Root::new(
        Value::Pure(Number::from_int(3)),
        Value::Pure(Number::from_int(27)),
    );
    let v = p.solve().unwrap();
    let approx: f64 = v.raw() as f64 / 1e9;
    assert!((approx - 3.0).abs() < 1e-6);
}

#[test]
fn root_degree_zero_is_error() {
    let p = Root::new(
        Value::Pure(Number::from_int(0)),
        Value::Pure(Number::from_int(4)),
    );
    let e = p.solve().unwrap_err();
    assert_eq!(
        e.message(),
        "the degree of a root must be a whole number of at least 2"
    );
}

#[test]
fn root_degree_one_is_error() {
    let p = Root::new(
        Value::Pure(Number::from_int(1)),
        Value::Pure(Number::from_int(4)),
    );
    let e = p.solve().unwrap_err();
    assert_eq!(
        e.message(),
        "the degree of a root must be a whole number of at least 2"
    );
}

#[test]
fn root_fractional_degree_is_error() {
    let p = Root::new(
        Value::Pure(Number::from_raw(2_500_000_000)),
        Value::Pure(Number::from_int(4)),
    );
    let e = p.solve().unwrap_err();
    assert_eq!(
        e.message(),
        "the degree of a root must be a whole number of at least 2"
    );
}

#[test]
fn root_of_negative_does_not_converge() {
    let p = Root::new(
        Value::Pure(Number::from_int(2)),
        Value::Pure(Number::from_int(-4)),
    );
    let e = p.solve().unwrap_err();
    assert_eq!(e.message(), "the root computation did not converge");
}

#[test]
fn nth_root_direct_call() {
    let v = nth_root(Number::from_int(2), Number::from_int(4)).unwrap();
    assert_eq!(v, Number::from_int(2));
}

#[test]
fn empty_always_fails() {
    let e = Empty.solve().unwrap_err();
    assert!(matches!(e, ModelErrors::EmptyStructError()));
    assert_eq!(e.message(), "You cannot solve an Empty struct");
}

#[test]
fn nested_plus_adds_through() {
    let inner = Plus::new(
        Value::Pure(Number::from_int(1)),
        Value::Pure(Number::from_int(1)),
    );
    let outer = Plus::new(
        Value::Derived(Box::new(Node::Plus(inner))),
        Value::Pure(Number::from_int(1)),
    );
    assert_eq!(outer.solve().unwrap(), Number::from_int(3));
}

#[test]
fn nested_error_propagates_unchanged() {
    let inner = Division::new(
        Value::Pure(Number::from_int(1)),
        Value::Pure(Number::from_int(0)),
    );
    let outer = Plus::new(
        Value::Derived(Box::new(Node::Division(inner))),
        Value::Pure(Number::from_int(1)),
    );
    let e = outer.solve().unwrap_err();
    assert!(matches!(e, ModelErrors::DivisionByZeroError()));
}

#[test]
fn plus_overflow_is_error() {
    let p = Plus::new(
        Value::Pure(Number::from_raw(i64::MAX)),
        Value::Pure(Number::from_int(1)),
    );
    let e = p.solve().unwrap_err();
    assert_eq!(e.message(), "the calculation overflowed the numeric range");
}

#[test]
fn parentheses_dispatch_each_operant() {
    let plus = Parentheses::new(
        Value::Pure(Number::from_int(1)),
        Operant::Plus,
        Value::Pure(Number::from_int(2)),
    );
    assert_eq!(plus.solve().unwrap(), Number::from_int(3));
    let minus = Parentheses::new(
        Value::Pure(Number::from_int(5)),
        Operant::Minus,
        Value::Pure(Number::from_int(2)),
    );
    assert_eq!(minus.solve().unwrap(), Number::from_int(3));
    let mult = Parentheses::new(
        Value::Pure(Number::from_int(3)),
        Operant::Mult,
        Value::Pure(Number::from_int(4)),
    );
    assert_eq!(mult.solve().unwrap(), Number::from_int(12));
    let div = Parentheses::new(
        Value::Pure(Number::from_int(8)),
        Operant::Div,
        Value::Pure(Number::from_int(2)),
    );
    assert_eq!(div.solve().unwrap(), Number::from_int(4));
    let pow = Parentheses::new(
        Value::Pure(Number::from_int(2)),
        Operant::Pow,
        Value::Pure(Number::from_int(3)),
    );
    assert_eq!(pow.solve().unwrap(), Number::from_int(8));
    let root = Parentheses::new(
        Value::Pure(Number::from_int(2)),
        Operant::Root,
        Value::Pure(Number::from_int(9)),
    );
    assert_eq!(root.solve().unwrap(), Number::from_int(3));
}

#[test]
fn parentheses_null_right_resolves_to_zero() {
    let p = Parentheses::new(
        Value::Pure(Number::from_int(5)),
        Operant::Plus,
        Value::Null,
    );
    assert_eq!(p.solve().unwrap(), Number::from_int(5));
    let d = Parentheses::new(Value::Pure(Number::from_int(5)), Operant::Div, Value::Null);
    let e = d.solve().unwrap_err();
    assert!(matches!(e, ModelErrors::DivisionByZeroError()));
}

#[test]
fn parentheses_null_left_is_error() {
    let p = Parentheses::new(
        Value::Null,
        Operant::Plus,
        Value::Pure(Number::from_int(5)),
    );
    let e = p.solve().unwrap_err();
    assert_eq!(
        e.message(),
        "left branch of the Parentheses structure may not be null"
    );
}

#[test]
fn times_overflow_is_error() {
    let p = Times::new(
        Value::Pure(Number::from_int(9_000_000_000)),
        Value::Pure(Number::from_int(9_000_000_000)),
    );
    let e = p.solve().unwrap_err();
    assert_eq!(e.message(), "the calculation overflowed the numeric range");
}

#[test]
fn power_overflow_is_error() {
    let p = Power::new(
        Value::Pure(Number::from_int(10)),
        Value::Pure(Number::from_int(9)),
    );
    assert_eq!(p.solve().unwrap(), Number::from_int(1_000_000_000));
    let q = Power::new(
        Value::Pure(Number::from_int(10)),
        Value::Pure(Number::from_int(10)),
    );
    let e = q.solve().unwrap_err();
    assert_eq!(e.message(), "the calculation overflowed the numeric range");
}

#[test]
fn root_of_zero_does_not_converge() {
    let p = Root::new(
        Value::Pure(Number::from_int(2)),
        Value::Pure(Number::from_int(0)),
    );
    let e = p.solve().unwrap_err();
    assert_eq!(e.message(), "the root computation did not converge");
}

#[test]
fn root_of_quarter_is_half() {
    let p = Root::new(
        Value::Pure(Number::from_int(2)),
        Value::Pure(Number::from_raw(250_000_000)),
    );
    assert_eq!(p.solve().unwrap(), Number::from_raw(500_000_000));
}

#[test]
fn node_solves_as_its_variant() {
    let n = Node::Times(Times::new(
        Value::Pure(Number::from_int(6)),
        Value::Pure(Number::from_int(7)),
    ));
    assert_eq!(n.solve().unwrap(), Number::from_int(42));
    let e = Node::Empty(Empty).solve().unwrap_err();
    assert!(matches!(e, ModelErrors::EmptyStructError()));
}

#[test]
fn solve_is_repeatable() {
    let p = Plus::new(
        Value::Pure(Number::from_int(2)),
        Value::Pure(Number::from_int(3)),
    );
    assert_eq!(p.solve().unwrap(), p.solve().unwrap());
}
