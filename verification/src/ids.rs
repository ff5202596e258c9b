//! Identifiers. Every id of the service (order, user, product, idempotency
//! key) is a UUID, held here as its 128-bit value.

use vstd::prelude::*;
use vstd::arithmetic::power::{pow, lemma_pow_positive};
use vstd::arithmetic::div_mod::{lemma_div_denominator, lemma_fundamental_div_mod, lemma_div_pos_is_pos, lemma_mod_pos_bound};

verus! {

/// The lower-case hexadecimal digit for `d` (0 to 15).
pub open spec fn hex_digit(d: int) -> char {
    if d < 10 {
        (48 + d) as char
    } else {
        (87 + d) as char
    }
}

/// The `k`-th hexadecimal digit of `id`, counting from the most significant.
pub open spec fn uuid_nibble(id: u128, k: int) -> int {
    ((id as int) / vstd::arithmetic::power::pow(16, (31 - k) as nat)) % 16
}

/// How many hyphens a hyphenated UUID has before position `i`.
pub open spec fn hyphens_before(i: int) -> int {
    (if i > 8 { 1int } else { 0int }) + (if i > 13 { 1int } else { 0int }) + (if i > 18 {
        1int
    } else {
        0int
    }) + (if i > 23 { 1int } else { 0int })
}

/// The hyphenated lower-case text of a UUID: 32 hexadecimal digits, most
/// significant first, in groups of 8-4-4-4-12 joined by hyphens.
pub open spec fn uuid_text(id: u128) -> Seq<char> {
    Seq::new(
        36,
        |i: int|
            if i == 8 || i == 13 || i == 18 || i == 23 {
                '-'
            } else {
                hex_digit(uuid_nibble(id, i - hyphens_before(i)))
            },
    )
}

/// The value of a hexadecimal digit of either case, or nothing for any
/// other character.
pub open spec fn hex_value(c: char) -> Option<int> {
    if '0' <= c && c <= '9' {
        Some(c as int - '0' as int)
    } else if 'a' <= c && c <= 'f' {
        Some(c as int - 'a' as int + 10)
    } else if 'A' <= c && c <= 'F' {
        Some(c as int - 'A' as int + 10)
    } else {
        None
    }
}

/// The number a run of hexadecimal digits writes, most significant first,
/// or nothing when one of its characters is not a hexadecimal digit.
pub open spec fn hex_number(s: Seq<char>) -> Option<int>
    decreases s.len(),
{
    if s.len() == 0 {
        Some(0)
    } else {
        match (hex_number(s.drop_last()), hex_value(s.last())) {
            (Some(h), Some(d)) => Some(h * 16 + d),
            _ => None,
        }
    }
}

/// The UUID written by 32 hexadecimal digits.
pub open spec fn simple_uuid(s: Seq<char>) -> Option<u128> {
    if s.len() == 32 {
        match hex_number(s) {
            Some(v) => Some(v as u128),
            None => None,
        }
    } else {
        None
    }
}

/// The UUID written in the hyphenated 8-4-4-4-12 form.
pub open spec fn hyphenated_uuid(s: Seq<char>) -> Option<u128> {
    if s.len() == 36 && s[8] == '-' && s[13] == '-' && s[18] == '-' && s[23] == '-' {
        simple_uuid(
            s.subrange(0, 8) + s.subrange(9, 13) + s.subrange(14, 18) + s.subrange(19, 23)
                + s.subrange(24, 36),
        )
    } else {
        None
    }
}

/// Whether `c` is `lower` or, for a lower-case ASCII letter, its upper case.
pub open spec fn ascii_case_eq(c: char, lower: char) -> bool {
    c == lower || ('a' <= lower && lower <= 'z' && c as int == lower as int - 32)
}

/// Whether the nine characters of `p` spell `urn:uuid:` in any ASCII case.
pub open spec fn urn_prefix(p: Seq<char>) -> bool {
    let u = seq!['u', 'r', 'n', ':', 'u', 'u', 'i', 'd', ':'];
    p.len() == 9 && forall|i: int| 0 <= i < 9 ==> ascii_case_eq(#[trigger] p[i], u[i])
}

/// What `uuid::Uuid::parse_str` gives for a text: the simple form (32
/// hexadecimal digits), the hyphenated form, the hyphenated form in braces,
/// or the hyphenated form after a `urn:uuid:` prefix; digits of either case;
/// nothing for any other text.
pub open spec fn uuid_from_text(s: Seq<char>) -> Option<u128> {
    if s.len() == 32 {
        simple_uuid(s)
    } else if s.len() == 36 {
        hyphenated_uuid(s)
    } else if s.len() == 38 && s[0] == '{' && s[37] == '}' {
        hyphenated_uuid(s.subrange(1, 37))
    } else if s.len() == 45 && urn_prefix(s.subrange(0, 9)) {
        hyphenated_uuid(s.subrange(9, 45))
    } else {
        None
    }
}

/// The 32 hexadecimal digits of a UUID, most significant first.
pub open spec fn uuid_digits(id: u128) -> Seq<char> {
    Seq::new(32, |k: int| hex_digit(uuid_nibble(id, k)))
}

proof fn lemma_hex_digit_value(d: int)
    requires
        0 <= d < 16,
    ensures
        hex_value(hex_digit(d)) == Some(d),
{
}

/// The first `j` digits of a UUID read as the UUID's value divided by 16 to
/// the power of the digits that remain.
proof fn lemma_uuid_digits_prefix(id: u128, j: int)
    requires
        0 <= j <= 32,
    ensures
        hex_number(uuid_digits(id).subrange(0, j)) == Some((id as int) / pow(16, (32 - j) as nat)),
    decreases j,
{
    let d = uuid_digits(id);
    if j == 0 {
        assert(d.subrange(0, 0) =~= Seq::<char>::empty());
        assert(pow(16, 32) == 0x1_0000_0000_0000_0000_0000_0000_0000_0000int) by {
            reveal_with_fuel(pow, 33);
        }
    } else {
        lemma_uuid_digits_prefix(id, j - 1);
        let p = d.subrange(0, j);
        assert(p.drop_last() =~= d.subrange(0, j - 1));
        let b = pow(16, (32 - j) as nat);
        lemma_pow_positive(16, (32 - j) as nat);
        assert(pow(16, (33 - j) as nat) == 16 * b) by {
            reveal(pow);
        }
        let y = (id as int) / b;
        lemma_div_denominator(id as int, b, 16);
        assert(b * 16 == 16 * b);
        lemma_fundamental_div_mod(y, 16);
        lemma_div_pos_is_pos(id as int, b);
        lemma_mod_pos_bound(y, 16);
        lemma_hex_digit_value(y % 16);
        assert(p.last() == hex_digit(y % 16));
    }
}

/// A UUID written as text by [`uuid_to_string`] reads back, with
/// [`parse_uuid`], as the same UUID.
pub proof fn lemma_uuid_text_reads_back(id: u128)
    ensures
        uuid_from_text(uuid_text(id)) == Some(id),
{
    let t = uuid_text(id);
    let parts = t.subrange(0, 8) + t.subrange(9, 13) + t.subrange(14, 18) + t.subrange(19, 23)
        + t.subrange(24, 36);
    assert forall|k: int| 0 <= k < 32 implies #[trigger] parts[k] == uuid_digits(id)[k] by {
        if k < 8 {
            assert(parts[k] == t[k]);
        } else if k < 12 {
            assert(parts[k] == t[k + 1]);
        } else if k < 16 {
            assert(parts[k] == t[k + 2]);
        } else if k < 20 {
            assert(parts[k] == t[k + 3]);
        } else {
            assert(parts[k] == t[k + 4]);
        }
    }
    assert(parts =~= uuid_digits(id));
    lemma_uuid_digits_prefix(id, 32);
    assert(uuid_digits(id).subrange(0, 32) =~= uuid_digits(id));
    assert(pow(16, 0) == 1) by {
        reveal(pow);
    }
}

/// Parses a UUID from text with `uuid::Uuid::parse_str`; see [`uuid_from_text`].
#[verifier::external_body]
pub(crate) fn parse_uuid(s: &str) -> (r: Option<u128>)
    ensures
        r == uuid_from_text(s@),
{
    match uuid::Uuid::parse_str(s) {
        Ok(u) => Some(u.as_u128()),
        Err(_) => None,
    }
}

/// Formats a UUID with `uuid::Uuid`'s `Display`, which writes the hyphenated
/// lower-case form.
#[verifier::external_body]
pub(crate) fn uuid_to_string(id: u128) -> (r: String)
    ensures
        r@ == uuid_text(id),
{
    uuid::Uuid::from_u128(id).to_string()
}

} // verus!
