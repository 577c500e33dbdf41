//! A generic coordinate pair, and a circle whose area is computed exactly
//! in fixed-point arithmetic.
//!
//! The circle's radius is held in hundredths of a unit and the fixed
//! approximation of pi, 3.14159, as the integer 314159 in hundred-
//! thousandths. The area therefore comes out exactly, in billionths of a
//! square unit, and is rendered to two decimal places by a verified
//! decimal formatter.

use vstd::prelude::*;
use vstd::string::StringExecFns;

verus! {

/// A pair of same-typed coordinates, never mutated after construction.
pub struct Point<T> {
    pub x: T,
    pub y: T,
}

impl<T> Point<T> {
    pub fn new(x: T, y: T) -> (p: Point<T>)
        ensures
            p.x == x,
            p.y == y,
    {
        Point { x, y }
    }
}

/// The fixed approximation of pi, in hundred-thousandths: 3.14159 exactly,
/// deliberately not a more precise constant.
pub const PI_HUNDRED_THOUSANDTHS: u64 = 314159;

/// A radius bound (in hundredths) under which the area in billionths is
/// sure to fit in a 64-bit word.
pub const MAX_RADIUS_HUNDREDTHS: u64 = 7000000;

/// A circle with a single radius field, held in hundredths of a unit.
pub struct Circle {
    pub radius_hundredths: u64,
}

impl Circle {
    /// The exact area in billionths of a square unit:
    /// 3.14159 times the radius squared, in fixed-point form.
    pub open spec fn spec_area_billionths(&self) -> int {
        PI_HUNDRED_THOUSANDTHS * self.radius_hundredths * self.radius_hundredths
    }

    /// Computes the exact fixed-point area of the circle.
    pub fn area_billionths(&self) -> (area: u64)
        requires
            self.radius_hundredths <= MAX_RADIUS_HUNDREDTHS,
        ensures
            area == self.spec_area_billionths(),
    {
        proof {
            assert(PI_HUNDRED_THOUSANDTHS * self.radius_hundredths <= u64::MAX) by (nonlinear_arith)
                requires
                    self.radius_hundredths <= MAX_RADIUS_HUNDREDTHS,
            ;
            assert(PI_HUNDRED_THOUSANDTHS * self.radius_hundredths * self.radius_hundredths
                <= u64::MAX) by (nonlinear_arith)
                requires
                    self.radius_hundredths <= MAX_RADIUS_HUNDREDTHS,
            ;
        }
        PI_HUNDRED_THOUSANDTHS * self.radius_hundredths * self.radius_hundredths
    }

    /// The area rendered to two decimal places, rounding half up.
    pub fn area_text(&self) -> (out: String)
        requires
            self.radius_hundredths <= MAX_RADIUS_HUNDREDTHS,
        ensures
            out@ == spec_hundredths_text(round_billionths_to_hundredths(
                self.spec_area_billionths() as nat,
            )),
    {
        let area = self.area_billionths();
        format_hundredths(round_to_hundredths(area))
    }
}

/// A quantity in billionths, rounded half up to hundredths.
pub open spec fn round_billionths_to_hundredths(billionths: nat) -> nat {
    (billionths + 5000000) / 10000000
}

/// Rounds a quantity in billionths half up to hundredths.
pub fn round_to_hundredths(billionths: u64) -> (hundredths: u64)
    ensures
        hundredths == round_billionths_to_hundredths(billionths as nat),
{
    (billionths / 10000000) + (billionths % 10000000 + 5000000) / 10000000
}

/// The character for a single decimal digit.
pub open spec fn digit_char(d: nat) -> char {
    if d == 0 {
        '0'
    } else if d == 1 {
        '1'
    } else if d == 2 {
        '2'
    } else if d == 3 {
        '3'
    } else if d == 4 {
        '4'
    } else if d == 5 {
        '5'
    } else if d == 6 {
        '6'
    } else if d == 7 {
        '7'
    } else if d == 8 {
        '8'
    } else {
        '9'
    }
}

/// The usual decimal rendering of a natural number, most significant
/// digit first, with no leading zeros except on zero itself.
pub open spec fn spec_decimal(n: nat) -> Seq<char>
    decreases n,
{
    if n < 10 {
        seq![digit_char(n)]
    } else {
        spec_decimal(n / 10).push(digit_char(n % 10))
    }
}

/// A quantity in hundredths rendered with exactly two digits after the
/// decimal point.
pub open spec fn spec_hundredths_text(hundredths: nat) -> Seq<char> {
    spec_decimal(hundredths / 100) + seq!['.', digit_char(hundredths / 10 % 10), digit_char(
        hundredths % 10,
    )]
}

fn digit_str(d: u64) -> (out: &'static str)
    requires
        d < 10,
    ensures
        out@ == seq![digit_char(d as nat)],
{
    proof {
        reveal_strlit("0");
        reveal_strlit("1");
        reveal_strlit("2");
        reveal_strlit("3");
        reveal_strlit("4");
        reveal_strlit("5");
        reveal_strlit("6");
        reveal_strlit("7");
        reveal_strlit("8");
        reveal_strlit("9");
    }
    match d {
        0 => "0",
        1 => "1",
        2 => "2",
        3 => "3",
        4 => "4",
        5 => "5",
        6 => "6",
        7 => "7",
        8 => "8",
        _ => "9",
    }
}

/// Renders a natural number in decimal.
pub fn format_number(n: u64) -> (out: String)
    ensures
        out@ == spec_decimal(n as nat),
    decreases n,
{
    if n < 10 {
        String::from_str(digit_str(n))
    } else {
        let high = format_number(n / 10);
        high.concat(digit_str(n % 10))
    }
}

/// Renders a quantity in hundredths with two digits after the point.
pub fn format_hundredths(hundredths: u64) -> (out: String)
    ensures
        out@ == spec_hundredths_text(hundredths as nat),
{
    proof {
        reveal_strlit(".");
    }
    let whole = format_number(hundredths / 100);
    let with_dot = whole.concat(".");
    let with_tenths = with_dot.concat(digit_str(hundredths / 10 % 10));
    let out = with_tenths.concat(digit_str(hundredths % 10));
    proof {
        assert(out@ =~= spec_hundredths_text(hundredths as nat));
    }
    out
}

} // verus!
