//! Filters and paging of order listings.

use vstd::prelude::*;
use crate::models::order_state::OrderStatus;

verus! {

/// Which orders a listing shows. Ids are UUID values; dates are microseconds
/// since the Unix epoch.
#[derive(Debug)]
pub struct OrderFilter {
    pub status: Option<OrderStatus>,
    pub jastiper_id: Option<u128>,
    pub titipers_id: Option<u128>,
    pub product_id: Option<u128>,
    pub date_from: Option<i64>,
    pub date_to: Option<i64>,
}

impl OrderFilter {
    /// A filter that lets every order through.
    pub fn any() -> (r: OrderFilter)
        ensures
            r.status is None,
            r.jastiper_id is None,
            r.titipers_id is None,
            r.product_id is None,
            r.date_from is None,
            r.date_to is None,
    {
        OrderFilter {
            status: None,
            jastiper_id: None,
            titipers_id: None,
            product_id: None,
            date_from: None,
            date_to: None,
        }
    }
}

/// Which page of a listing to show, and in what order.
pub struct PaginationParams {
    pub page: Option<i64>,
    pub limit: Option<i64>,
    pub sort_by: Option<String>,
    pub order: Option<SortOrder>,
}

/// A listing request: paging and filter together.
pub struct OrderQueryParams {
    pub pagination: PaginationParams,
    pub filter: OrderFilter,
}

/// Sort direction; ascending unless asked otherwise.
#[derive(Clone, Copy, Debug, PartialEq, Eq, Structural)]
pub enum SortOrder {
    Asc,
    Desc,
}

/// Whether `c` is one of the ASCII digits `0` to `9`.
pub open spec fn is_decimal_digit(c: char) -> bool {
    '0' <= c && c <= '9'
}

/// The value of a run of decimal digits, most significant first.
pub open spec fn digits_value(d: Seq<char>) -> int
    decreases d.len(),
{
    if d.len() == 0 {
        0
    } else {
        digits_value(d.drop_last()) * 10 + (d.last() as int - '0' as int)
    }
}

/// The integer a text writes in decimal: an optional `+` or `-` sign
/// followed by one or more digits and nothing else.
pub open spec fn signed_decimal(s: Seq<char>) -> Option<int> {
    let signed = s.len() > 0 && (s[0] == '-' || s[0] == '+');
    let digits = if signed {
        s.drop_first()
    } else {
        s
    };
    if digits.len() > 0 && forall|i: int| 0 <= i < digits.len() ==> is_decimal_digit(#[trigger] digits[i]) {
        Some(
            if s[0] == '-' {
                -digits_value(digits)
            } else {
                digits_value(digits)
            },
        )
    } else {
        None
    }
}

/// What `i64::from_str` gives for a text, as its documentation states: the
/// number the text writes in decimal (see [`signed_decimal`]) when it fits
/// in an `i64`, and nothing otherwise.
pub open spec fn decimal_i64(s: Seq<char>) -> Option<i64> {
    match signed_decimal(s) {
        Some(v) => if i64::MIN <= v <= i64::MAX {
            Some(v as i64)
        } else {
            None
        },
        None => None,
    }
}

/// Parses a decimal `i64` with `str::parse::<i64>`, whose documentation
/// accepts an optional sign followed by digits only, and refuses a value out
/// of range.
#[verifier::external_body]
pub(crate) fn parse_i64(s: &str) -> (r: Option<i64>)
    ensures
        r == decimal_i64(s@),
{
    match s.parse::<i64>() {
        Ok(n) => Some(n),
        Err(_) => None,
    }
}

/// How a query-string number is read: absent or empty means no value; other
/// text must be an `i64`, and is refused (`None`) otherwise.
pub open spec fn optional_number_spec(s: Option<Seq<char>>) -> Option<Option<i64>> {
    match s {
        None => Some(None),
        Some(t) => if t.len() == 0 {
            Some(None)
        } else {
            match decimal_i64(t) {
                Some(n) => Some(Some(n)),
                None => None,
            }
        },
    }
}

/// Reads an optional page or limit from the query string: absent or empty
/// gives no value, a number gives that number, anything else is refused (`None`).
pub fn optional_number(s: Option<&str>) -> (r: Option<Option<i64>>)
    ensures
        r == optional_number_spec(
            match s {
                Some(t) => Some(t@),
                None => None,
            },
        ),
{
    match s {
        None => Some(None),
        Some(t) => {
            if t.is_empty() {
                Some(None)
            } else {
                match parse_i64(t) {
                    Some(n) => Some(Some(n)),
                    None => None,
                }
            }
        },
    }
}

} // verus!
