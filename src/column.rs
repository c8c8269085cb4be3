use vstd::prelude::*;

verus! {

/// A value stored in, or bound to, one column of a database row.
///
/// A floating-point value is never written by the catalog and never read as
/// anything but a mismatch, so it is kept without its payload.
#[derive(Clone, Debug, PartialEq, Eq)]
pub enum SqlValue {
    Null,
    Integer(i64),
    Real,
    Text(String),
    Blob(Vec<u8>),
}

/// The mathematical value of a `SqlValue`.
pub enum SqlDatum {
    Null,
    Integer(int),
    Real,
    Text(Seq<char>),
    Blob(Seq<u8>),
}

impl View for SqlValue {
    type V = SqlDatum;

    open spec fn view(&self) -> SqlDatum {
        match self {
            SqlValue::Null => SqlDatum::Null,
            SqlValue::Integer(i) => SqlDatum::Integer(*i as int),
            SqlValue::Real => SqlDatum::Real,
            SqlValue::Text(s) => SqlDatum::Text(s@),
            SqlValue::Blob(b) => SqlDatum::Blob(b@),
        }
    }
}

pub open spec fn fits_i32(i: int) -> bool {
    i32::MIN <= i <= i32::MAX
}

/// The datum bound for an optional integer field.
pub open spec fn opt_int_datum(v: Option<i32>) -> SqlDatum {
    match v {
        Some(i) => SqlDatum::Integer(i as int),
        None => SqlDatum::Null,
    }
}

/// The datum bound for an optional text field.
pub open spec fn opt_text_datum(v: Option<Seq<char>>) -> SqlDatum {
    match v {
        Some(s) => SqlDatum::Text(s),
        None => SqlDatum::Null,
    }
}

/// Reading a required 32-bit integer column: only an integer in range is accepted.
pub open spec fn int_column(d: SqlDatum) -> Option<i32> {
    match d {
        SqlDatum::Integer(i) => if fits_i32(i) { Some(i as i32) } else { None },
        _ => None,
    }
}

/// Reading a nullable 32-bit integer column (`None` when the datum does not fit).
pub open spec fn opt_int_column(d: SqlDatum) -> Option<Option<i32>> {
    match d {
        SqlDatum::Null => Some(None),
        SqlDatum::Integer(i) => if fits_i32(i) { Some(Some(i as i32)) } else { None },
        _ => None,
    }
}

/// Reading a required text column.
pub open spec fn text_column(d: SqlDatum) -> Option<Seq<char>> {
    match d {
        SqlDatum::Text(s) => Some(s),
        _ => None,
    }
}

/// Reading a nullable text column (`None` when the datum does not fit).
pub open spec fn opt_text_column(d: SqlDatum) -> Option<Option<Seq<char>>> {
    match d {
        SqlDatum::Null => Some(None),
        SqlDatum::Text(s) => Some(Some(s)),
        _ => None,
    }
}

pub open spec fn is_digit(c: char) -> bool {
    '0' <= c <= '9'
}

/// The value of a run of decimal digits.
pub open spec fn digits_value(s: Seq<char>) -> int
    decreases s.len(),
{
    if s.len() == 0 {
        0
    } else {
        10 * digits_value(s.drop_last()) + (s.last() as int - '0' as int)
    }
}

pub open spec fn all_digits(s: Seq<char>) -> bool {
    s.len() > 0 && forall|i: int| 0 <= i < s.len() ==> is_digit(#[trigger] s[i])
}

/// The integer that a decimal numeral denotes: an optional sign followed by
/// at least one digit, with no other character.
pub open spec fn numeral_value(s: Seq<char>) -> Option<int> {
    if s.len() > 0 && (s[0] == '-' || s[0] == '+') {
        if all_digits(s.drop_first()) {
            if s[0] == '-' {
                Some(-digits_value(s.drop_first()))
            } else {
                Some(digits_value(s.drop_first()))
            }
        } else {
            None
        }
    } else if all_digits(s) {
        Some(digits_value(s))
    } else {
        None
    }
}

/// The 32-bit integer that text `s` reads as, if any.
pub open spec fn decimal_i32(s: Seq<char>) -> Option<i32> {
    match numeral_value(s) {
        Some(v) => if fits_i32(v) { Some(v as i32) } else { None },
        None => None,
    }
}

/// Reading the price column: an integer in range, or text holding a numeral
/// in range; anything else, and a null, gives no price.
pub open spec fn price_column(d: SqlDatum) -> Option<i32> {
    match d {
        SqlDatum::Integer(i) => if fits_i32(i) { Some(i as i32) } else { None },
        SqlDatum::Text(s) => decimal_i32(s),
        _ => None,
    }
}

/// Relies on `<i32 as FromStr>::from_str`, documented to accept an optional
/// `+` or `-` followed by ASCII digits, and to fail on any other character,
/// on an empty numeral and on a value out of range.
#[verifier::external_body]
fn parse_i32(s: &str) -> (r: Option<i32>)
    ensures
        r == decimal_i32(s@),
{
    s.parse::<i32>().ok()
}

pub fn bind_opt_int(v: Option<i32>) -> (r: SqlValue)
    ensures
        r@ == opt_int_datum(v),
{
    match v {
        Some(i) => SqlValue::Integer(i as i64),
        None => SqlValue::Null,
    }
}

pub fn bind_opt_text(v: &Option<String>) -> (r: SqlValue)
    ensures
        r@ == opt_text_datum(crate::models::text_view(*v)),
{
    match v {
        Some(s) => SqlValue::Text(s.clone()),
        None => SqlValue::Null,
    }
}

pub fn bind_text(s: &String) -> (r: SqlValue)
    ensures
        r@ == SqlDatum::Text(s@),
{
    SqlValue::Text(s.clone())
}

pub fn read_int(v: &SqlValue) -> (r: Option<i32>)
    ensures
        r == int_column(v@),
{
    match v {
        SqlValue::Integer(i) => if i32::MIN as i64 <= *i && *i <= i32::MAX as i64 {
            Some(*i as i32)
        } else {
            None
        },
        _ => None,
    }
}

pub fn read_opt_int(v: &SqlValue) -> (r: Option<Option<i32>>)
    ensures
        r == opt_int_column(v@),
{
    match v {
        SqlValue::Null => Some(None),
        SqlValue::Integer(i) => if i32::MIN as i64 <= *i && *i <= i32::MAX as i64 {
            Some(Some(*i as i32))
        } else {
            None
        },
        _ => None,
    }
}

pub fn read_text(v: &SqlValue) -> (r: Option<String>)
    ensures
        match r {
            Some(s) => text_column(v@) == Some(s@),
            None => text_column(v@).is_none(),
        },
{
    match v {
        SqlValue::Text(s) => Some(s.clone()),
        _ => None,
    }
}

pub fn read_opt_text(v: &SqlValue) -> (r: Option<Option<String>>)
    ensures
        match r {
            Some(t) => opt_text_column(v@) == Some(crate::models::text_view(t)),
            None => opt_text_column(v@).is_none(),
        },
{
    match v {
        SqlValue::Null => Some(None),
        SqlValue::Text(s) => Some(Some(s.clone())),
        _ => None,
    }
}

/// Reads the price column, falling back from an integer to a numeral held as text.
pub fn read_price(v: &SqlValue) -> (r: Option<i32>)
    ensures
        r == price_column(v@),
{
    match v {
        SqlValue::Integer(i) => if i32::MIN as i64 <= *i && *i <= i32::MAX as i64 {
            Some(*i as i32)
        } else {
            None
        },
        SqlValue::Text(s) => parse_i32(s.as_str()),
        _ => None,
    }
}

} // verus!
