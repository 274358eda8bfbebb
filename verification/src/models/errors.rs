//! The closed set of failure kinds that evaluation returns, and its
//! specification-level mirror.

use crate::number::Number;
use vstd::prelude::*;
use vstd::string::StringExecFns;

verus! {

/// Specification-level image of `ModelErrors`: the same three kinds, with a
/// calculation error carrying its diagnostic text as a sequence of characters.
pub enum SpecErr {
    Calculation(Seq<char>),
    EmptyStruct,
    DivisionByZero,
}

/// The failure kinds of evaluation. A `CalculationError` carries a diagnostic
/// message; the other kinds have a fixed wording of their own.
#[derive(Debug)]
pub enum ModelErrors {
    CalculationError(String),
    EmptyStructError(),
    DivisionByZeroError(),
}

impl View for ModelErrors {
    type V = SpecErr;

    open spec fn view(&self) -> SpecErr {
        match self {
            ModelErrors::CalculationError(m) => SpecErr::Calculation(m@),
            ModelErrors::EmptyStructError() => SpecErr::EmptyStruct,
            ModelErrors::DivisionByZeroError() => SpecErr::DivisionByZero,
        }
    }
}

/// Wording of each error kind.
pub open spec fn spec_message(e: SpecErr) -> Seq<char> {
    match e {
        SpecErr::Calculation(m) => m,
        SpecErr::EmptyStruct => "You cannot solve an Empty struct"@,
        SpecErr::DivisionByZero => "You cannot divide by zero"@,
    }
}

impl ModelErrors {
    /// Human-readable wording of the error.
    pub fn message(&self) -> (r: String)
        ensures
            r@ == spec_message(self@),
    {
        match self {
            ModelErrors::CalculationError(m) => m.clone(),
            ModelErrors::EmptyStructError() => String::from_str("You cannot solve an Empty struct"),
            ModelErrors::DivisionByZeroError() => String::from_str("You cannot divide by zero"),
        }
    }
}

/// A calculation error with the given diagnostic text.
pub fn calculation_error(msg: &str) -> (e: ModelErrors)
    ensures
        e@ == SpecErr::Calculation(msg@),
{
    ModelErrors::CalculationError(String::from_str(msg))
}

/// Relates an executable evaluation result to its specification-level value:
/// the same outcome, with the number and the error taken by their views.
pub open spec fn solve_matches(r: Result<Number, ModelErrors>, s: Result<int, SpecErr>) -> bool {
    match (r, s) {
        (Result::Ok(n), Result::Ok(v)) => n@ == v,
        (Result::Err(e), Result::Err(k)) => e@ == k,
        _ => false,
    }
}

/// Text that every overflowing arithmetic step reports.
pub open spec fn overflow_msg() -> Seq<char> {
    "the calculation overflowed the numeric range"@
}

} // verus!
