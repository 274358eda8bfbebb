//! Fixed-point numbers with nine decimal places, the numeric domain of the
//! expression evaluator. A `Number` holds `raw` fixed-point units, so the
//! value it stands for is `raw / SCALE`. All arithmetic rounds toward zero
//! and reports a result outside the symmetric raw range as an overflow.

use vstd::prelude::*;
use vstd::string::StringExecFns;

verus! {

/// Raw fixed-point units per whole unit: every value carries nine decimal places.
pub const SCALE: i64 = 1_000_000_000;

/// Absolute value of a mathematical integer.
pub open spec fn iabs(a: int) -> int {
    if a < 0 {
        -a
    } else {
        a
    }
}

/// The symmetric range of raw values that arithmetic results may occupy.
pub open spec fn in_range(v: int) -> bool {
    -(i64::MAX as int) <= v && v <= i64::MAX as int
}

/// Integer division rounded toward zero, the rounding used by every
/// fixed-point operation here.
pub open spec fn trunc_div(a: int, b: int) -> int
    recommends
        b != 0,
{
    if (a < 0) == (b < 0) {
        iabs(a) / iabs(b)
    } else {
        -(iabs(a) / iabs(b))
    }
}

/// Raw value of the product of two fixed-point values.
pub open spec fn mul_val(a: int, b: int) -> int {
    trunc_div(a * b, SCALE as int)
}

/// Raw value of the quotient of two fixed-point values.
pub open spec fn div_val(a: int, b: int) -> int
    recommends
        b != 0,
{
    trunc_div(a * (SCALE as int), b)
}

/// A real number held in fixed-point form: the value is `raw / SCALE`.
#[derive(Clone, Copy, PartialEq, Eq, Structural, Debug)]
pub struct Number {
    raw: i64,
}

impl View for Number {
    type V = int;

    closed spec fn view(&self) -> int {
        self.raw as int
    }
}

/// Every `Number` keeps its raw value inside the machine word that holds it.
pub broadcast proof fn lemma_number_in_bounds(n: Number)
    ensures
        -0x8000_0000_0000_0000 <= #[trigger] n@,
        n@ <= 0x7fff_ffff_ffff_ffff,
{
}

proof fn lemma_abs_mul(a: int, b: int)
    ensures
        iabs(a * b) == iabs(a) * iabs(b),
{
    if a >= 0 && b >= 0 {
        assert(a * b >= 0) by (nonlinear_arith)
            requires
                a >= 0 && b >= 0,
        ;
    } else if a < 0 && b < 0 {
        assert(a * b >= 0 && a * b == (-a) * (-b)) by (nonlinear_arith)
            requires
                a < 0 && b < 0,
        ;
    } else if a >= 0 && b < 0 {
        assert(a * b <= 0 && a * (-b) == -(a * b)) by (nonlinear_arith)
            requires
                a >= 0 && b < 0,
        ;
    } else {
        assert(a * b <= 0 && (-a) * b == -(a * b)) by (nonlinear_arith)
            requires
                a < 0 && b >= 0,
        ;
    }
}

proof fn lemma_mul_sign(a: int, b: int)
    ensures
        a * b > 0 ==> ((a < 0) == (b < 0)),
        a * b == 0 ==> a == 0 || b == 0,
        a * b < 0 ==> ((a < 0) != (b < 0)),
{
    assert((a * b > 0 ==> ((a < 0) == (b < 0))) && (a * b == 0 ==> a == 0 || b == 0) && (a * b
        < 0 ==> ((a < 0) != (b < 0)))) by (nonlinear_arith);
}

impl Number {
    /// Wraps a raw count of fixed-point units.
    pub fn from_raw(raw: i64) -> (n: Number)
        ensures
            n@ == raw as int,
    {
        Number { raw }
    }

    /// The number equal to the given whole integer.
    pub fn from_int(i: i64) -> (n: Number)
        requires
            -9_223_372_036 <= i <= 9_223_372_036,
        ensures
            n@ == i * (SCALE as int),
    {
        Number { raw: i * SCALE }
    }

    /// The raw count of fixed-point units.
    pub fn raw(&self) -> (r: i64)
        ensures
            r as int == self@,
    {
        self.raw
    }

    /// Magnitude of the raw value, exact even at the extreme of the range.
    pub fn magnitude(&self) -> (m: u128)
        ensures
            m as int == iabs(self@),
    {
        if self.raw >= 0 {
            self.raw as u128
        } else {
            let w: i128 = self.raw as i128;
            (-w) as u128
        }
    }

    /// Magnitude of the difference of two raw values, free of overflow.
    pub fn abs_diff(&self, other: &Number) -> (d: u128)
        ensures
            d as int == iabs(self@ - other@),
    {
        let a: i128 = self.raw as i128;
        let b: i128 = other.raw as i128;
        if a >= b {
            (a - b) as u128
        } else {
            (b - a) as u128
        }
    }

    /// Exact sum, or `None` when it leaves the raw range.
    pub fn checked_add(self, other: Number) -> (r: Option<Number>)
        ensures
            match r {
                Some(n) => in_range(self@ + other@) && n@ == self@ + other@,
                None => !in_range(self@ + other@),
            },
    {
        let s: i128 = (self.raw as i128) + (other.raw as i128);
        if s < -(i64::MAX as i128) || s > (i64::MAX as i128) {
            None
        } else {
            Some(Number { raw: s as i64 })
        }
    }

    /// Exact difference, or `None` when it leaves the raw range.
    pub fn checked_sub(self, other: Number) -> (r: Option<Number>)
        ensures
            match r {
                Some(n) => in_range(self@ - other@) && n@ == self@ - other@,
                None => !in_range(self@ - other@),
            },
    {
        let s: i128 = (self.raw as i128) - (other.raw as i128);
        if s < -(i64::MAX as i128) || s > (i64::MAX as i128) {
            None
        } else {
            Some(Number { raw: s as i64 })
        }
    }

    /// Fixed-point product rounded toward zero, or `None` when it leaves the
    /// raw range.
    pub fn checked_mul(self, other: Number) -> (r: Option<Number>)
        ensures
            match r {
                Some(n) => in_range(mul_val(self@, other@)) && n@ == mul_val(self@, other@),
                None => !in_range(mul_val(self@, other@)),
            },
    {
        let neg: bool = (self.raw < 0) != (other.raw < 0);
        let ma: u128 = self.magnitude();
        let mb: u128 = other.magnitude();
        proof {
            assert(ma * mb <= 0x8000_0000_0000_0000u128 * 0x8000_0000_0000_0000u128)
                by (nonlinear_arith)
                requires
                    ma <= 0x8000_0000_0000_0000u128 && mb <= 0x8000_0000_0000_0000u128,
            ;
            lemma_abs_mul(self@, other@);
            lemma_mul_sign(self@, other@);
        }
        let q: u128 = (ma * mb) / (SCALE as u128);
        if q > (i64::MAX as u128) {
            None
        } else {
            let v: i64 = if neg {
                -(q as i64)
            } else {
                q as i64
            };
            Some(Number { raw: v })
        }
    }

    /// Fixed-point quotient rounded toward zero, or `None` when it leaves the
    /// raw range.
    pub fn checked_div(self, other: Number) -> (r: Option<Number>)
        requires
            other@ != 0,
        ensures
            match r {
                Some(n) => in_range(div_val(self@, other@)) && n@ == div_val(self@, other@),
                None => !in_range(div_val(self@, other@)),
            },
    {
        let neg: bool = (self.raw < 0) != (other.raw < 0);
        let ma: u128 = self.magnitude();
        let mb: u128 = other.magnitude();
        proof {
            assert(ma * (SCALE as u128) <= 0x8000_0000_0000_0000u128 * 0x8000_0000_0000_0000u128)
                by (nonlinear_arith)
                requires
                    ma <= 0x8000_0000_0000_0000u128 && (SCALE as u128)
                        <= 0x8000_0000_0000_0000u128,
            ;
            lemma_abs_mul(self@, SCALE as int);
            lemma_mul_sign(self@, SCALE as int);
        }
        let q: u128 = (ma * (SCALE as u128)) / mb;
        if q > (i64::MAX as u128) {
            None
        } else {
            let v: i64 = if neg {
                -(q as i64)
            } else {
                q as i64
            };
            Some(Number { raw: v })
        }
    }
}

/// Text of a single decimal digit.
pub open spec fn spec_digit(d: nat) -> Seq<char> {
    if d == 0 {
        "0"@
    } else if d == 1 {
        "1"@
    } else if d == 2 {
        "2"@
    } else if d == 3 {
        "3"@
    } else if d == 4 {
        "4"@
    } else if d == 5 {
        "5"@
    } else if d == 6 {
        "6"@
    } else if d == 7 {
        "7"@
    } else if d == 8 {
        "8"@
    } else {
        "9"@
    }
}

/// Decimal text of a natural number, most significant digit first.
pub open spec fn spec_decimal(n: nat) -> Seq<char>
    decreases n,
{
    if n < 10 {
        spec_digit(n)
    } else {
        spec_decimal(n / 10) + spec_digit(n % 10)
    }
}

/// Decimal text of a natural number padded with leading zeros to the width.
pub open spec fn spec_padded(n: nat, width: nat) -> Seq<char>
    decreases width,
{
    if width == 0 {
        Seq::<char>::empty()
    } else {
        spec_padded(n / 10, (width - 1) as nat) + spec_digit(n % 10)
    }
}

/// Text of a raw fixed-point value: sign, whole part, point, nine fraction digits.
pub open spec fn spec_number_text(v: int) -> Seq<char> {
    let sign = if v < 0 {
        "-"@
    } else {
        Seq::<char>::empty()
    };
    sign + spec_decimal((iabs(v) / (SCALE as int)) as nat) + "."@ + spec_padded(
        (iabs(v) % (SCALE as int)) as nat,
        9,
    )
}

fn digit_text(d: u64) -> (s: &'static str)
    requires
        d < 10,
    ensures
        s@ == spec_digit(d as nat),
{
    if d == 0 {
        "0"
    } else if d == 1 {
        "1"
    } else if d == 2 {
        "2"
    } else if d == 3 {
        "3"
    } else if d == 4 {
        "4"
    } else if d == 5 {
        "5"
    } else if d == 6 {
        "6"
    } else if d == 7 {
        "7"
    } else if d == 8 {
        "8"
    } else {
        "9"
    }
}

fn decimal_text(n: u64) -> (s: String)
    ensures
        s@ == spec_decimal(n as nat),
    decreases n,
{
    if n < 10 {
        String::from_str(digit_text(n))
    } else {
        let mut s = decimal_text(n / 10);
        s.append(digit_text(n % 10));
        s
    }
}

fn padded_text(n: u64, width: u32) -> (s: String)
    ensures
        s@ == spec_padded(n as nat, width as nat),
    decreases width,
{
    if width == 0 {
        String::new()
    } else {
        let mut s = padded_text(n / 10, width - 1);
        s.append(digit_text(n % 10));
        s
    }
}

impl Number {
    /// Decimal text of the value: an optional sign, the whole part, a point,
    /// and exactly nine fraction digits.
    pub fn text(&self) -> (s: String)
        ensures
            s@ == spec_number_text(self@),
    {
        let m: u128 = self.magnitude();
        let whole: u64 = (m / (SCALE as u128)) as u64;
        let frac: u64 = (m % (SCALE as u128)) as u64;
        let mut s = if self.raw < 0 {
            String::from_str("-")
        } else {
            String::new()
        };
        s.append(decimal_text(whole).as_str());
        s.append(".");
        s.append(padded_text(frac, 9).as_str());
        s
    }
}

} // verus!
