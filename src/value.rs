//! Field values of a decoded table and their rendering as text cells.

use vstd::prelude::*;
use crate::dates::{Date, DateTime};

verus! {

/// One typed value of a record, tagged with its field kind.
#[derive(Clone, Debug, PartialEq)]
pub enum FieldValue {
    /// Character data, already trimmed and decoded; `None` when the stored
    /// value is blank.
    Character(Option<String>),
    /// A number, held as the decimal text of the stored value.
    Numeric(Option<String>),
    /// A floating-point number, held as the decimal text of the stored value.
    Float(Option<String>),
    /// A calendar date.
    Date(Option<Date>),
    /// A date and time of day.
    DateTime(DateTime),
    /// A boolean flag.
    Logical(Option<bool>),
    /// Variable-length text, read from the memo store.
    Memo(String),
    /// A kind that has no text rendering here.
    Other,
}

/// The decimal digit character of `d`, for `d < 10`.
pub open spec fn digit_char(d: nat) -> char {
    if d == 0 {
        '0'
    } else if d == 1 {
        '1'
    } else if d == 2 {
        '2'
    } else if d == 3 {
        '3'
    } else if d == 4 {
        '4'
    } else if d == 5 {
        '5'
    } else if d == 6 {
        '6'
    } else if d == 7 {
        '7'
    } else if d == 8 {
        '8'
    } else {
        '9'
    }
}

/// The decimal digits of `n`, most significant first, without leading zeros.
pub open spec fn digits(n: nat) -> Seq<char>
    decreases n,
{
    if n < 10 {
        seq![digit_char(n)]
    } else {
        digits(n / 10).push(digit_char(n % 10))
    }
}

/// The decimal text of `n`, with a leading `-` when it is negative.
pub open spec fn decimal_text(n: int) -> Seq<char> {
    if n < 0 {
        seq!['-'] + digits((-n) as nat)
    } else {
        digits(n as nat)
    }
}

/// The text cell of a field value: the payload for text and numbers, the
/// day count since the epoch for a date, the second count for a date-time,
/// `1` or `0` for a flag, empty for a missing payload and `ERR` for a kind
/// without rendering.
pub open spec fn normalized(v: FieldValue) -> Seq<char> {
    match v {
        FieldValue::Character(Some(s)) => s@,
        FieldValue::Numeric(Some(s)) => s@,
        FieldValue::Float(Some(s)) => s@,
        FieldValue::Date(Some(d)) => decimal_text(d.unix_days()),
        FieldValue::DateTime(t) => decimal_text(t.unix_timestamp()),
        FieldValue::Logical(Some(b)) => if b {
            seq!['1']
        } else {
            seq!['0']
        },
        FieldValue::Memo(s) => s@,
        FieldValue::Other => seq!['E', 'R', 'R'],
        _ => Seq::empty(),
    }
}

/// Relies on the `Display` of `i64` in std, which writes the decimal digits
/// of the value without leading zeros, after a `-` when it is negative.
#[verifier::external_body]
fn decimal_string(n: i64) -> (r: String)
    ensures
        r@ == decimal_text(n as int),
{
    n.to_string()
}

/// Renders one field value as its text cell.
pub fn field_value_to_string(value: &FieldValue) -> (r: String)
    ensures
        r@ == normalized(*value),
{
    match value {
        FieldValue::Character(Some(s)) => s.clone(),
        FieldValue::Numeric(Some(s)) => s.clone(),
        FieldValue::Float(Some(s)) => s.clone(),
        FieldValue::Date(Some(d)) => decimal_string(d.to_unix_days() as i64),
        FieldValue::DateTime(t) => decimal_string(t.to_unix_timestamp()),
        FieldValue::Logical(Some(b)) => {
            if *b {
                proof {
                    reveal_strlit("1");
                }
                "1".to_owned()
            } else {
                proof {
                    reveal_strlit("0");
                }
                "0".to_owned()
            }
        },
        FieldValue::Memo(s) => s.clone(),
        FieldValue::Other => {
            proof {
                reveal_strlit("ERR");
            }
            "ERR".to_owned()
        },
        _ => String::new(),
    }
}

/// The rendering of a field value depends on that value alone: equal values
/// always give the same text.
pub proof fn lemma_normalization_deterministic(a: FieldValue, b: FieldValue)
    requires
        a == b,
    ensures
        normalized(a) == normalized(b),
{
}

} // verus!
