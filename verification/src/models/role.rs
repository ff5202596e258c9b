//! The roles under which a caller acts on an order.

use vstd::prelude::*;
use crate::text::{str_eq, enclose};

verus! {

/// Who is acting: the buyer (titipers), the seller (jastiper), an admin, or
/// the service itself.
#[derive(Clone, Copy, Debug, PartialEq, Eq, Structural)]
pub enum Role {
    Titipers,
    Jastiper,
    Admin,
    System,
}

/// The upper-case name under which a role is stored and sent.
pub open spec fn role_name(r: Role) -> Seq<char> {
    match r {
        Role::Titipers => "TITIPERS"@,
        Role::Jastiper => "JASTIPER"@,
        Role::Admin => "ADMIN"@,
        Role::System => "SYSTEM"@,
    }
}

/// The role whose name is `s`, if any.
pub open spec fn parse_role(s: Seq<char>) -> Option<Role> {
    if s == "TITIPERS"@ {
        Some(Role::Titipers)
    } else if s == "JASTIPER"@ {
        Some(Role::Jastiper)
    } else if s == "ADMIN"@ {
        Some(Role::Admin)
    } else if s == "SYSTEM"@ {
        Some(Role::System)
    } else {
        None
    }
}

/// The text of the error for a string that names no role.
pub open spec fn invalid_role_text(s: Seq<char>) -> Seq<char> {
    "Nilai Role tidak valid: '"@ + s + "'"@
}

impl Role {
    /// The role's upper-case name.
    pub fn as_str(&self) -> (r: &'static str)
        ensures
            r@ == role_name(*self),
    {
        match self {
            Role::Titipers => "TITIPERS",
            Role::Jastiper => "JASTIPER",
            Role::Admin => "ADMIN",
            Role::System => "SYSTEM",
        }
    }

    /// Reads a role from its upper-case name; any other text is refused with
    /// a message that quotes it.
    pub fn from_str(s: &str) -> (r: Result<Role, String>)
        ensures
            parse_role(s@) matches Some(x) ==> r == Ok::<Role, String>(x),
            parse_role(s@) is None ==> (r matches Err(m) && m@ == invalid_role_text(s@)),
    {
        if str_eq(s, "TITIPERS") {
            Ok(Role::Titipers)
        } else if str_eq(s, "JASTIPER") {
            Ok(Role::Jastiper)
        } else if str_eq(s, "ADMIN") {
            Ok(Role::Admin)
        } else if str_eq(s, "SYSTEM") {
            Ok(Role::System)
        } else {
            Err(enclose("Nilai Role tidak valid: '", s, "'"))
        }
    }
}

/// Reading a role's name gives the role back, and distinct roles have distinct names.
pub proof fn lemma_role_name_round_trip(r: Role)
    ensures
        parse_role(role_name(r)) == Some(r),
{
    reveal_strlit("TITIPERS");
    reveal_strlit("JASTIPER");
    reveal_strlit("ADMIN");
    reveal_strlit("SYSTEM");
    assert("TITIPERS"@[0] != "JASTIPER"@[0]);
    assert("TITIPERS"@[0] != "ADMIN"@[0]);
    assert("TITIPERS"@[0] != "SYSTEM"@[0]);
    assert("JASTIPER"@[0] != "ADMIN"@[0]);
    assert("JASTIPER"@[0] != "SYSTEM"@[0]);
    assert("ADMIN"@[0] != "SYSTEM"@[0]);
}

/// A name that is read as a role is exactly that role's name.
pub proof fn lemma_parse_role_exact(s: Seq<char>)
    ensures
        parse_role(s) matches Some(r) ==> role_name(r) == s,
{
}

impl std::str::FromStr for Role {
    type Err = String;

    /// Reads a name as [`Role::from_str`] does.
    fn from_str(s: &str) -> Result<Role, String> {
        Role::from_str(s)
    }
}

} // verus!
