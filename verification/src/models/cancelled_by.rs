//! Who cancelled an order.

use vstd::prelude::*;
use crate::text::{str_eq, enclose};

verus! {

/// The party recorded as having cancelled an order.
#[derive(Clone, Copy, Debug, PartialEq, Eq, Structural)]
pub enum CancelledBy {
    Jastiper,
    Admin,
}

/// The upper-case name under which the party is stored.
pub open spec fn cancelled_by_name(c: CancelledBy) -> Seq<char> {
    match c {
        CancelledBy::Jastiper => "JASTIPER"@,
        CancelledBy::Admin => "ADMIN"@,
    }
}

/// The party whose name is `s`, if any.
pub open spec fn parse_cancelled_by(s: Seq<char>) -> Option<CancelledBy> {
    if s == "JASTIPER"@ {
        Some(CancelledBy::Jastiper)
    } else if s == "ADMIN"@ {
        Some(CancelledBy::Admin)
    } else {
        None
    }
}

/// The text of the error for a string that names no party.
pub open spec fn invalid_cancelled_by_text(s: Seq<char>) -> Seq<char> {
    "Nilai CancelledBy tidak valid: '"@ + s + "'"@
}

impl CancelledBy {
    /// The party's upper-case name.
    pub fn as_str(&self) -> (r: &'static str)
        ensures
            r@ == cancelled_by_name(*self),
    {
        match self {
            CancelledBy::Jastiper => "JASTIPER",
            CancelledBy::Admin => "ADMIN",
        }
    }

    /// Reads the party from its upper-case name; any other text is refused
    /// with a message that quotes it.
    pub fn from_str(s: &str) -> (r: Result<CancelledBy, String>)
        ensures
            parse_cancelled_by(s@) matches Some(x) ==> r == Ok::<CancelledBy, String>(x),
            parse_cancelled_by(s@) is None ==> (r matches Err(m) && m@
                == invalid_cancelled_by_text(s@)),
    {
        if str_eq(s, "JASTIPER") {
            Ok(CancelledBy::Jastiper)
        } else if str_eq(s, "ADMIN") {
            Ok(CancelledBy::Admin)
        } else {
            Err(enclose("Nilai CancelledBy tidak valid: '", s, "'"))
        }
    }
}

/// Reading a party's name gives the party back.
pub proof fn lemma_cancelled_by_round_trip(c: CancelledBy)
    ensures
        parse_cancelled_by(cancelled_by_name(c)) == Some(c),
{
    reveal_strlit("JASTIPER");
    reveal_strlit("ADMIN");
    assert("JASTIPER"@[0] != "ADMIN"@[0]);
}

impl std::str::FromStr for CancelledBy {
    type Err = String;

    /// Reads a name as [`CancelledBy::from_str`] does.
    fn from_str(s: &str) -> Result<CancelledBy, String> {
        CancelledBy::from_str(s)
    }
}

} // verus!
