//! Date normalization.
//!
//! A bibliography date field arrives either as free-form text chunks or
//! as a structured calendar value. Normalization yields a single display
//! string: free text is flattened, a structured instant is rendered as
//! its decimal year, and every other structured sub-variant (ranges,
//! open intervals) is deliberately collapsed to absence — the display
//! use case needs no precision beyond the year.

use vstd::prelude::*;

use crate::text::spec_flatten;
use crate::text::flatten;
use crate::text::TextChunk;

verus! {

/// A timezone-unaware calendar instant. Only the year is relevant to
/// display normalization.
#[derive(Debug, Clone, Copy, PartialEq, Eq)]
pub struct Datetime {
    /// The year. AD years are counted from one upward, BC years from
    /// zero downward.
    pub year: i32,
}

/// A single date or a range of dates.
#[derive(Debug, Clone, Copy, PartialEq, Eq)]
pub enum DateValue {
    /// A single date.
    At(Datetime),
    /// A range with known start but open end.
    After(Datetime),
    /// A range with open start but known end.
    Before(Datetime),
    /// A range with known start and end.
    Between(Datetime, Datetime),
}

/// A structured calendar date.
#[derive(Debug, Clone, Copy, PartialEq, Eq)]
pub struct Date {
    /// The date or date range.
    pub value: DateValue,
}

/// A date field as stored in a raw entry: either free-form text chunks
/// or a structured calendar value.
#[derive(Debug, Clone, PartialEq, Eq)]
pub enum DateField {
    /// Free-form text that did not parse as a structured date.
    Chunks(Vec<TextChunk>),
    /// A structured calendar value.
    Typed(Date),
}

/// The decimal digit character for `d` (meaningful for `d < 10`).
pub open spec fn spec_digit_char(d: nat) -> char {
    if d == 0 {
        '0'
    } else if d == 1 {
        '1'
    } else if d == 2 {
        '2'
    } else if d == 3 {
        '3'
    } else if d == 4 {
        '4'
    } else if d == 5 {
        '5'
    } else if d == 6 {
        '6'
    } else if d == 7 {
        '7'
    } else if d == 8 {
        '8'
    } else {
        '9'
    }
}

/// The decimal digit string of `n`, most significant digit first, with
/// no leading zeros (`0` itself renders as `"0"`).
pub open spec fn spec_digits(n: nat) -> Seq<char>
    decreases n,
{
    if n < 10 {
        seq![spec_digit_char(n)]
    } else {
        spec_digits(n / 10).push(spec_digit_char(n % 10))
    }
}

/// The decimal rendering of `y`: a minus sign followed by the digits of
/// its magnitude when negative, the bare digits otherwise.
pub open spec fn spec_year_string(y: int) -> Seq<char> {
    if y < 0 {
        seq!['-'] + spec_digits((-y) as nat)
    } else {
        spec_digits(y as nat)
    }
}

/// The normalized display string of a date field: flattened free text,
/// the decimal year of a structured instant, absence for every other
/// structured sub-variant.
pub open spec fn spec_date_string(d: DateField) -> Option<Seq<char>> {
    match d {
        DateField::Chunks(cs) => Some(spec_flatten(cs@)),
        DateField::Typed(date) => match date.value {
            DateValue::At(dt) => Some(spec_year_string(dt.year as int)),
            DateValue::After(_) => None,
            DateValue::Before(_) => None,
            DateValue::Between(_, _) => None,
        },
    }
}

/// The single-character string for decimal digit `d`.
fn digit_str(d: u64) -> (r: &'static str)
    requires
        d < 10,
    ensures
        r@ == seq![spec_digit_char(d as nat)],
{
    if d == 0 {
        proof {
            reveal_strlit("0");
            assert("0"@ =~= seq![spec_digit_char(0)]);
        }
        "0"
    } else if d == 1 {
        proof {
            reveal_strlit("1");
            assert("1"@ =~= seq![spec_digit_char(1)]);
        }
        "1"
    } else if d == 2 {
        proof {
            reveal_strlit("2");
            assert("2"@ =~= seq![spec_digit_char(2)]);
        }
        "2"
    } else if d == 3 {
        proof {
            reveal_strlit("3");
            assert("3"@ =~= seq![spec_digit_char(3)]);
        }
        "3"
    } else if d == 4 {
        proof {
            reveal_strlit("4");
            assert("4"@ =~= seq![spec_digit_char(4)]);
        }
        "4"
    } else if d == 5 {
        proof {
            reveal_strlit("5");
            assert("5"@ =~= seq![spec_digit_char(5)]);
        }
        "5"
    } else if d == 6 {
        proof {
            reveal_strlit("6");
            assert("6"@ =~= seq![spec_digit_char(6)]);
        }
        "6"
    } else if d == 7 {
        proof {
            reveal_strlit("7");
            assert("7"@ =~= seq![spec_digit_char(7)]);
        }
        "7"
    } else if d == 8 {
        proof {
            reveal_strlit("8");
            assert("8"@ =~= seq![spec_digit_char(8)]);
        }
        "8"
    } else {
        proof {
            reveal_strlit("9");
            assert("9"@ =~= seq![spec_digit_char(9)]);
        }
        "9"
    }
}

/// Appends the decimal digits of `n` to `out`, most significant first.
fn push_digits(out: &mut String, n: u64)
    ensures
        final(out)@ == old(out)@ + spec_digits(n as nat),
    decreases n,
{
    let ghost prefix = out@;
    if n >= 10 {
        push_digits(out, n / 10);
    }
    out.append(digit_str(n % 10));
    proof {
        if n < 10 {
            assert(out@ =~= prefix + spec_digits(n as nat));
        } else {
            assert(spec_digits(n as nat) == spec_digits(n as nat / 10).push(
                spec_digit_char(n as nat % 10),
            ));
            assert(n as nat / 10 == (n / 10) as nat);
            assert(n as nat % 10 == (n % 10) as nat);
            assert(out@ =~= prefix + spec_digits(n as nat));
        }
    }
}

/// Renders a year as a decimal string, with a leading minus sign for
/// negative years.
pub fn year_to_string(y: i32) -> (r: String)
    ensures
        r@ == spec_year_string(y as int),
{
    let mut out = String::new();
    let n: u64;
    if y < 0 {
        out.append("-");
        let wide: i64 = y as i64;
        n = (-wide) as u64;
        proof {
            reveal_strlit("-");
            assert(out@ =~= seq!['-']);
            assert(n as nat == (-(y as int)) as nat);
        }
    } else {
        n = y as u64;
    }
    push_digits(&mut out, n);
    out
}

/// Normalizes a date field into a single display string: free text is
/// flattened (always a string, possibly empty), a structured instant
/// yields its year in decimal, and every other structured sub-variant
/// yields absence.
pub fn date_to_string(d: &DateField) -> (r: Option<String>)
    ensures
        r.deep_view() == spec_date_string(*d),
{
    match d {
        DateField::Chunks(cs) => Some(flatten(cs)),
        DateField::Typed(date) => match date.value {
            DateValue::At(dt) => Some(year_to_string(dt.year)),
            DateValue::After(_) => None,
            DateValue::Before(_) => None,
            DateValue::Between(_, _) => None,
        },
    }
}

} // verus!
