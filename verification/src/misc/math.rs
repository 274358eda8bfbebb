//! Numeric collaborators of the evaluator: fixed-point integer powers and the
//! Newton iteration behind the principal n-th root.

use crate::models::errors::{calculation_error, overflow_msg, solve_matches, ModelErrors, SpecErr};
use crate::number::{div_val, iabs, in_range, mul_val, Number, SCALE};
use vstd::prelude::*;

verus! {

broadcast use crate::number::lemma_number_in_bounds;

/// Text reported when the degree handed to the root routine is unusable.
pub open spec fn root_degree_msg() -> Seq<char> {
    "the degree of a root must be a whole number of at least 2"@
}

/// Text reported when the Newton iteration fails to settle.
pub open spec fn root_diverge_msg() -> Seq<char> {
    "the root computation did not converge"@
}

/// Text reported when the exponent of a power is not a whole number.
pub open spec fn power_fraction_msg() -> Seq<char> {
    "the exponent of a power must be a whole number"@
}

/// Text reported when a negative power of zero is asked for.
pub open spec fn power_zero_msg() -> Seq<char> {
    "a negative power of zero is undefined"@
}

/// The fixed-point value raised to a whole non-negative power, by repeated
/// squaring; every intermediate product that leaves the raw range is an
/// overflow error.
pub open spec fn spec_pow_fixed(b: int, k: nat) -> Result<int, SpecErr>
    decreases k,
{
    if k == 0 {
        Result::Ok(SCALE as int)
    } else if k % 2 == 0 {
        match spec_pow_fixed(b, k / 2) {
            Result::Ok(h) => if in_range(mul_val(h, h)) {
                Result::Ok(mul_val(h, h))
            } else {
                Result::Err(SpecErr::Calculation(overflow_msg()))
            },
            Result::Err(e) => Result::Err(e),
        }
    } else {
        match spec_pow_fixed(b, (k - 1) as nat) {
            Result::Ok(h) => if in_range(mul_val(b, h)) {
                Result::Ok(mul_val(b, h))
            } else {
                Result::Err(SpecErr::Calculation(overflow_msg()))
            },
            Result::Err(e) => Result::Err(e),
        }
    }
}

/// Raises a fixed-point value to a whole non-negative power.
pub fn pow_fixed(b: Number, k: u64) -> (r: Result<Number, ModelErrors>)
    ensures
        solve_matches(r, spec_pow_fixed(b@, k as nat)),
    decreases k,
{
    if k == 0 {
        Result::Ok(Number::from_raw(SCALE))
    } else if k % 2 == 0 {
        match pow_fixed(b, k / 2) {
            Result::Ok(h) => match h.checked_mul(h) {
                Option::Some(n) => Result::Ok(n),
                Option::None => Result::Err(
                    calculation_error("the calculation overflowed the numeric range"),
                ),
            },
            Result::Err(e) => Result::Err(e),
        }
    } else {
        match pow_fixed(b, k - 1) {
            Result::Ok(h) => match b.checked_mul(h) {
                Option::Some(n) => Result::Ok(n),
                Option::None => Result::Err(
                    calculation_error("the calculation overflowed the numeric range"),
                ),
            },
            Result::Err(e) => Result::Err(e),
        }
    }
}

/// Standard real exponentiation as this numeric domain offers it: the
/// exponent must be a whole number; a negative exponent takes the reciprocal
/// of the positive power.
pub open spec fn spec_power(b: int, e: int) -> Result<int, SpecErr> {
    if iabs(e) % (SCALE as int) != 0 {
        Result::Err(SpecErr::Calculation(power_fraction_msg()))
    } else {
        match spec_pow_fixed(b, (iabs(e) / (SCALE as int)) as nat) {
            Result::Err(er) => Result::Err(er),
            Result::Ok(v) => if e >= 0 {
                Result::Ok(v)
            } else if v == 0 {
                Result::Err(SpecErr::Calculation(power_zero_msg()))
            } else if !in_range(div_val(SCALE as int, v)) {
                Result::Err(SpecErr::Calculation(overflow_msg()))
            } else {
                Result::Ok(div_val(SCALE as int, v))
            },
        }
    }
}

/// Raises a fixed-point base to a fixed-point exponent, as `spec_power` says.
pub fn power(b: Number, e: Number) -> (r: Result<Number, ModelErrors>)
    ensures
        solve_matches(r, spec_power(b@, e@)),
{
    let em: u128 = e.magnitude();
    if em % (SCALE as u128) != 0 {
        return Result::Err(calculation_error("the exponent of a power must be a whole number"));
    }
    proof {
        assert(em <= 0x8000_0000_0000_0000u128);
        assert(em / (SCALE as u128) <= em);
    }
    let k: u64 = (em / (SCALE as u128)) as u64;
    let v = match pow_fixed(b, k) {
        Result::Ok(v) => v,
        Result::Err(er) => {
            return Result::Err(er);
        },
    };
    if e.raw() >= 0 {
        return Result::Ok(v);
    }
    if v.raw() == 0 {
        return Result::Err(calculation_error("a negative power of zero is undefined"));
    }
    match Number::from_raw(SCALE).checked_div(v) {
        Option::Some(q) => Result::Ok(q),
        Option::None => Result::Err(calculation_error("the calculation overflowed the numeric range")),
    }
}

/// How many Newton steps the root routine will take before giving up.
pub const NEWTON_FUEL: u32 = 100;

/// One run of the Newton iteration for the k-th root of `a`, starting at `x`:
/// the next iterate is `((n - 1) * x + a / x^(k-1)) / n`, and the iteration
/// stops when successive iterates differ by no more than `x` times one raw
/// unit. A zero iterate, an arithmetic overflow, or running out of fuel
/// surfaces an error instead of looping or dividing by zero.
pub open spec fn spec_newton(k: nat, n: int, a: int, x: int, fuel: nat) -> Result<int, SpecErr>
    recommends
        k >= 2,
        n >= 2 * (SCALE as int),
    decreases fuel,
{
    if fuel == 0 {
        Result::Err(SpecErr::Calculation(root_diverge_msg()))
    } else {
        match spec_pow_fixed(x, (k - 1) as nat) {
            Result::Err(e) => Result::Err(e),
            Result::Ok(p) => if p == 0 {
                Result::Err(SpecErr::Calculation(root_diverge_msg()))
            } else if !in_range(div_val(a, p)) {
                Result::Err(SpecErr::Calculation(overflow_msg()))
            } else if !in_range(mul_val(n - SCALE as int, x)) {
                Result::Err(SpecErr::Calculation(overflow_msg()))
            } else if !in_range(mul_val(n - SCALE as int, x) + div_val(a, p)) {
                Result::Err(SpecErr::Calculation(overflow_msg()))
            } else if !in_range(div_val(mul_val(n - SCALE as int, x) + div_val(a, p), n)) {
                Result::Err(SpecErr::Calculation(overflow_msg()))
            } else {
                let x1 = div_val(mul_val(n - SCALE as int, x) + div_val(a, p), n);
                if iabs(x1 - x) <= iabs(x) / (SCALE as int) {
                    Result::Ok(x1)
                } else {
                    spec_newton(k, n, a, x1, (fuel - 1) as nat)
                }
            },
        }
    }
}

fn newton_iter(k: u64, n: Number, a: Number, x: Number, fuel: u32) -> (r: Result<
    Number,
    ModelErrors,
>)
    requires
        k >= 2,
        n@ >= 2 * (SCALE as int),
    ensures
        solve_matches(r, spec_newton(k as nat, n@, a@, x@, fuel as nat)),
    decreases fuel,
{
    if fuel == 0 {
        return Result::Err(calculation_error("the root computation did not converge"));
    }
    let p = match pow_fixed(x, k - 1) {
        Result::Ok(p) => p,
        Result::Err(e) => {
            return Result::Err(e);
        },
    };
    if p.raw() == 0 {
        return Result::Err(calculation_error("the root computation did not converge"));
    }
    let q = match a.checked_div(p) {
        Option::Some(q) => q,
        Option::None => {
            return Result::Err(calculation_error("the calculation overflowed the numeric range"));
        },
    };
    let nm1 = Number::from_raw(n.raw() - SCALE);
    let t = match nm1.checked_mul(x) {
        Option::Some(t) => t,
        Option::None => {
            return Result::Err(calculation_error("the calculation overflowed the numeric range"));
        },
    };
    let s = match t.checked_add(q) {
        Option::Some(s) => s,
        Option::None => {
            return Result::Err(calculation_error("the calculation overflowed the numeric range"));
        },
    };
    let x1 = match s.checked_div(n) {
        Option::Some(x1) => x1,
        Option::None => {
            return Result::Err(calculation_error("the calculation overflowed the numeric range"));
        },
    };
    let diff: u128 = x1.abs_diff(&x);
    let tol: u128 = x.magnitude() / (SCALE as u128);
    if diff <= tol {
        Result::Ok(x1)
    } else {
        newton_iter(k, n, a, x1, fuel - 1)
    }
}

/// The principal n-th root of `a`, where the degree `n` must be a whole
/// number of at least 2: Newton's method from the starting guess `a / n`,
/// run by `spec_newton` with a bounded number of steps.
pub open spec fn spec_nth_root(n: int, a: int) -> Result<int, SpecErr> {
    if !(n >= 2 * (SCALE as int)) || n % (SCALE as int) != 0 {
        Result::Err(SpecErr::Calculation(root_degree_msg()))
    } else if !in_range(div_val(a, n)) {
        Result::Err(SpecErr::Calculation(overflow_msg()))
    } else {
        spec_newton((n / (SCALE as int)) as nat, n, a, div_val(a, n), NEWTON_FUEL as nat)
    }
}

/// The principal n-th root of `a`, as `spec_nth_root` says.
pub fn nth_root(n: Number, a: Number) -> (r: Result<Number, ModelErrors>)
    ensures
        solve_matches(r, spec_nth_root(n@, a@)),
{
    if n.raw() < 2 * SCALE || (n.raw() as u64) % (SCALE as u64) != 0 {
        return Result::Err(
            calculation_error("the degree of a root must be a whole number of at least 2"),
        );
    }
    let k: u64 = (n.raw() as u64) / (SCALE as u64);
    let x0 = match a.checked_div(n) {
        Option::Some(x0) => x0,
        Option::None => {
            return Result::Err(calculation_error("the calculation overflowed the numeric range"));
        },
    };
    newton_iter(k, n, a, x0, NEWTON_FUEL)
}

} // verus!
