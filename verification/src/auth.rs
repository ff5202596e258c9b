//! Who is calling: the bearer token's claims, the signing secret, and the
//! key that internal services present.

use vstd::prelude::*;
use vstd::string::*;
use base64::Engine;
use crate::error::{AppError, AppErrorView, unauthorized};
use crate::ids::{parse_uuid, uuid_from_text};
use crate::models::role::{Role, parse_role, invalid_role_text};
use crate::text::{enclose, owned, str_eq};

verus! {

/// The claims carried by a caller's token.
pub struct JwtClaims {
    /// The caller's user id, as UUID text.
    pub sub: String,
    pub email: String,
    /// The caller's role name.
    pub role: String,
    pub exp: usize,
    pub iat: usize,
}

/// The caller's user id from the parsed subject: the UUID, or an
/// `Unauthorized` refusal when the subject is not a UUID.
pub open spec fn user_id_spec(parsed: Option<u128>) -> Result<u128, AppErrorView> {
    match parsed {
        Some(id) => Ok(id),
        None => Err(AppErrorView::Unauthorized("Token subject bukan UUID valid"@)),
    }
}

/// The caller's role from the token's role name: the role, or an
/// `Unauthorized` refusal that quotes why the name was not read.
pub open spec fn claims_role_spec(role: Seq<char>) -> Result<Role, AppErrorView> {
    match parse_role(role) {
        Some(r) => Ok(r),
        None => Err(AppErrorView::Unauthorized("Role tidak valid: "@ + invalid_role_text(role))),
    }
}

/// Turns the parsed subject into the caller's id, or refuses.
pub fn user_id_from_parsed(parsed: Option<u128>) -> (r: Result<u128, AppError>)
    ensures
        match r {
            Ok(id) => user_id_spec(parsed) == Ok::<u128, AppErrorView>(id),
            Err(e) => user_id_spec(parsed) == Err::<u128, AppErrorView>(e@),
        },
{
    match parsed {
        Some(id) => Ok(id),
        None => Err(unauthorized("Token subject bukan UUID valid")),
    }
}

impl JwtClaims {
    /// The caller's user id: the token's subject read as a UUID.
    pub fn user_id(&self) -> (r: Result<u128, AppError>)
        ensures
            match r {
                Ok(id) => user_id_spec(uuid_from_text(self.sub@)) == Ok::<u128, AppErrorView>(
                    id,
                ),
                Err(e) => user_id_spec(uuid_from_text(self.sub@)) == Err::<
                    u128,
                    AppErrorView,
                >(e@),
            },
    {
        user_id_from_parsed(parse_uuid(self.sub.as_str()))
    }

    /// The caller's role, read from the token's role name.
    pub fn role(&self) -> (r: Result<Role, AppError>)
        ensures
            match r {
                Ok(x) => claims_role_spec(self.role@) == Ok::<Role, AppErrorView>(x),
                Err(e) => claims_role_spec(self.role@) == Err::<Role, AppErrorView>(e@),
            },
    {
        proof {
            reveal_strlit("");
        }
        match Role::from_str(self.role.as_str()) {
            Ok(x) => Ok(x),
            Err(m) => {
                let e = AppError::Unauthorized(enclose("Role tidak valid: ", m.as_str(), ""));
                assert(m@ + ""@ =~= m@);
                Err(e)
            },
        }
    }
}

/// The refusal of a bearer token that did not verify (bad signature,
/// expired, malformed), quoting why.
pub fn invalid_token(reason: &str) -> (e: AppError)
    ensures
        e@ == AppErrorView::Unauthorized("Token tidak valid: "@ + reason@),
{
    let e = AppError::Unauthorized(enclose("Token tidak valid: ", reason, ""));
    proof {
        reveal_strlit("");
        assert("Token tidak valid: "@ + reason@ + ""@ =~= "Token tidak valid: "@ + reason@);
    }
    e
}

/// The `Authorization` header, or a refusal when the request has none.
pub fn authorization_header(header: Option<&str>) -> (r: Result<&str, AppError>)
    ensures
        match header {
            Some(h) => r == Ok::<&str, AppError>(h),
            None => r matches Err(e) && e@ == AppErrorView::Unauthorized(
                "Header Authorization tidak ditemukan"@,
            ),
        },
{
    match header {
        Some(h) => Ok(h),
        None => Err(unauthorized("Header Authorization tidak ditemukan")),
    }
}

/// Whether a header value starts with `Bearer ` (with the space).
pub open spec fn has_bearer_prefix(h: Seq<char>) -> bool {
    h.len() >= 7 && h.subrange(0, 7) == "Bearer "@
}

/// The token of an `Authorization` header of the form `Bearer <token>`, or
/// an `Unauthorized` refusal for any other form.
pub fn bearer_token(header: &str) -> (r: Result<&str, AppError>)
    ensures
        has_bearer_prefix(header@) ==> (r matches Ok(t) && t@ == header@.subrange(
            7,
            header@.len() as int,
        )),
        !has_bearer_prefix(header@) ==> (r matches Err(e) && e@ == AppErrorView::Unauthorized(
            "Format token harus 'Bearer <token>'"@,
        )),
{
    let n = header.unicode_len();
    let prefix = "Bearer ";
    proof {
        reveal_strlit("Bearer ");
    }
    if n < 7 {
        return Err(unauthorized("Format token harus 'Bearer <token>'"));
    }
    let mut i: usize = 0;
    while i < 7
        invariant
            n == header@.len(),
            n >= 7,
            i <= 7,
            prefix@ == "Bearer "@,
            prefix@.len() == 7,
            forall|j: int| 0 <= j < i ==> header@[j] == prefix@[j],
        decreases 7 - i,
    {
        if header.get_char(i) != prefix.get_char(i) {
            assert(header@.subrange(0, 7)[i as int] != "Bearer "@[i as int]);
            return Err(unauthorized("Format token harus 'Bearer <token>'"));
        }
        i = i + 1;
    }
    assert(header@.subrange(0, 7) =~= "Bearer "@);
    Ok(header.substring_char(7, n))
}

/// The signing secret used when the environment gives none.
pub fn jwt_secret_or_default(configured: Option<String>) -> (r: String)
    ensures
        r@ == match configured {
            Some(c) => c@,
            None => "change-me"@,
        },
{
    match configured {
        Some(c) => c,
        None => owned("change-me"),
    }
}

/// Whether `c` is white space in the sense of Unicode's `White_Space`
/// property, as `char::is_whitespace` documents it.
pub open spec fn is_white_space(c: char) -> bool {
    let u = c as u32;
    (9 <= u <= 13) || u == 32 || u == 0x85 || u == 0xA0 || u == 0x1680 || (0x2000 <= u <= 0x200A)
        || u == 0x2028 || u == 0x2029 || u == 0x202F || u == 0x205F || u == 0x3000
}

/// Whether `c` is white space.
pub fn white_space(c: char) -> (r: bool)
    ensures
        r == is_white_space(c),
{
    let u = c as u32;
    (9 <= u && u <= 13) || u == 32 || u == 0x85 || u == 0xA0 || u == 0x1680 || (0x2000 <= u && u
        <= 0x200A) || u == 0x2028 || u == 0x2029 || u == 0x202F || u == 0x205F || u == 0x3000
}

/// `s` without its white space.
pub open spec fn strip_white_space(s: Seq<char>) -> Seq<char>
    decreases s.len(),
{
    if s.len() == 0 {
        s
    } else {
        let rest = strip_white_space(s.drop_last());
        if is_white_space(s.last()) {
            rest
        } else {
            rest.push(s.last())
        }
    }
}

/// The number of bytes of `c` in UTF-8.
pub open spec fn utf8_width(c: char) -> nat {
    let u = c as u32;
    if u < 0x80 {
        1
    } else if u < 0x800 {
        2
    } else if u < 0x10000 {
        3
    } else {
        4
    }
}

/// The number of bytes of `s` in UTF-8, which is what `str::len` counts.
pub open spec fn utf8_len(s: Seq<char>) -> nat
    decreases s.len(),
{
    if s.len() == 0 {
        0
    } else {
        utf8_len(s.drop_last()) + utf8_width(s.last())
    }
}

/// `s` with `=` padding so that its length in bytes becomes a multiple of 4
/// when it is 2 or 3 more than one.
pub open spec fn pad_secret(s: Seq<char>) -> Seq<char> {
    if utf8_len(s) % 4 == 2 {
        s + "=="@
    } else if utf8_len(s) % 4 == 3 {
        s + "="@
    } else {
        s
    }
}

/// Whether `s` ends with `==`.
pub open spec fn ends_with_double_pad(s: Seq<char>) -> bool {
    s.len() >= 2 && s[s.len() - 1] == '=' && s[s.len() - 2] == '='
}

/// The position of `c` in the standard base64 alphabet
/// `A-Z a-z 0-9 + /`, or 0 when it is not in it.
pub open spec fn base64_index(c: char) -> nat {
    let u = c as u32;
    if 65 <= u <= 90 {
        (u - 65) as nat
    } else if 97 <= u <= 122 {
        (u - 71) as nat
    } else if 48 <= u <= 57 {
        (u + 4) as nat
    } else if u == 43 {
        62
    } else if u == 47 {
        63
    } else {
        0
    }
}

/// The character at position `i` (below 64) of the standard base64 alphabet.
pub open spec fn base64_char(i: nat) -> char {
    if i < 26 {
        (65 + i) as char
    } else if i < 52 {
        (71 + i) as char
    } else if i < 62 {
        (i - 4) as char
    } else if i == 62 {
        '+'
    } else {
        '/'
    }
}

/// Whether normalizing `secret` can be carried out: when the padded secret
/// ends with `==`, the position three bytes from its end must be a position
/// of one of its characters (it always is when the secret is ASCII).
pub open spec fn secret_normalizable(secret: Seq<char>) -> bool {
    let p = pad_secret(strip_white_space(secret));
    ends_with_double_pad(p) ==> (3 <= utf8_len(p) && utf8_len(p) - 3 < p.len())
}

/// The signing secret as it is base64-decoded: white space removed, padded
/// with `=` to a whole number of 4-byte groups, and, when it ends with `==`,
/// the character three bytes from the end rounded down to the base64 digit
/// whose low two bits are clear (so that the padding bits are zero).
pub open spec fn normalized_secret(secret: Seq<char>) -> Seq<char> {
    let p = pad_secret(strip_white_space(secret));
    if ends_with_double_pad(p) {
        let i = utf8_len(p) - 3;
        let k = base64_index(p[i]);
        p.update(i, base64_char((k - k % 4) as nat))
    } else {
        p
    }
}

proof fn lemma_utf8_len_concat(a: Seq<char>, b: Seq<char>)
    ensures
        utf8_len(a + b) == utf8_len(a) + utf8_len(b),
    decreases b.len(),
{
    if b.len() > 0 {
        assert((a + b).drop_last() =~= a + b.drop_last());
        lemma_utf8_len_concat(a, b.drop_last());
    } else {
        assert(a + b =~= a);
    }
}

proof fn lemma_utf8_len_ge_len(s: Seq<char>)
    ensures
        utf8_len(s) >= s.len(),
    decreases s.len(),
{
    if s.len() > 0 {
        lemma_utf8_len_ge_len(s.drop_last());
    }
}

/// The number of bytes of `c` in UTF-8.
fn char_width(c: char) -> (r: u128)
    ensures
        r == utf8_width(c),
{
    let u = c as u32;
    if u < 0x80 {
        1
    } else if u < 0x800 {
        2
    } else if u < 0x10000 {
        3
    } else {
        4
    }
}

/// The position of `c` in the standard base64 alphabet, or 0.
fn base64_position(c: char) -> (r: u32)
    ensures
        r == base64_index(c),
        r < 64,
{
    let u = c as u32;
    if 65 <= u && u <= 90 {
        u - 65
    } else if 97 <= u && u <= 122 {
        u - 71
    } else if 48 <= u && u <= 57 {
        u + 4
    } else if u == 43 {
        62
    } else if u == 47 {
        63
    } else {
        0
    }
}

/// The character at position `i` of the standard base64 alphabet.
fn base64_digit(i: u32) -> (r: char)
    requires
        i < 64,
    ensures
        r == base64_char(i as nat),
{
    if i < 26 {
        ((65 + i) as u8) as char
    } else if i < 52 {
        ((71 + i) as u8) as char
    } else if i < 62 {
        ((i - 4) as u8) as char
    } else if i == 62 {
        '+'
    } else {
        '/'
    }
}

/// The secret without its white space, padded as [`pad_secret`] says, with
/// its length in UTF-8 bytes.
fn padded_secret(secret: &str) -> (r: (Vec<char>, u128))
    ensures
        r.0@ == pad_secret(strip_white_space(secret@)),
        r.1 == utf8_len(r.0@),
{
    let n = secret.unicode_len();
    let mut out: Vec<char> = Vec::new();
    let mut bytes: u128 = 0;
    let mut i: usize = 0;
    while i < n
        invariant
            n == secret@.len(),
            i <= n,
            out@ == strip_white_space(secret@.subrange(0, i as int)),
            bytes == utf8_len(out@),
            bytes <= 4 * i,
        decreases n - i,
    {
        let c = secret.get_char(i);
        proof {
            assert(secret@.subrange(0, i + 1).drop_last() =~= secret@.subrange(0, i as int));
        }
        let ghost before = out@;
        if !white_space(c) {
            out.push(c);
            proof {
                assert(out@.drop_last() =~= before);
            }
            bytes = bytes + char_width(c);
        }
        i = i + 1;
    }
    assert(secret@.subrange(0, n as int) =~= secret@);
    let ghost stripped = out@;
    if bytes % 4 == 2 {
        out.push('=');
        out.push('=');
        proof {
            reveal_strlit("==");
            assert(out@ =~= stripped + "=="@);
            lemma_utf8_len_concat(stripped, "=="@);
            reveal_with_fuel(utf8_len, 3);
        }
        (out, bytes + 2)
    } else if bytes % 4 == 3 {
        out.push('=');
        proof {
            reveal_strlit("=");
            assert(out@ =~= stripped + "="@);
            lemma_utf8_len_concat(stripped, "="@);
            reveal_with_fuel(utf8_len, 2);
        }
        (out, bytes + 1)
    } else {
        (out, bytes)
    }
}

/// Whether the signing secret can be normalized; see [`secret_normalizable`].
pub fn secret_is_normalizable(secret: &str) -> (r: bool)
    ensures
        r == secret_normalizable(secret@),
{
    let (out, total) = padded_secret(secret);
    let len = out.len();
    if len >= 2 && out[len - 1] == '=' && out[len - 2] == '=' {
        3 <= total && total - 3 < len as u128
    } else {
        true
    }
}

/// Normalizes the signing secret before it is base64-decoded; see
/// [`normalized_secret`].
pub fn normalize_jwt_secret(secret: &str) -> (r: Vec<char>)
    requires
        secret_normalizable(secret@),
    ensures
        r@ == normalized_secret(secret@),
{
    let (mut out, total) = padded_secret(secret);
    let len = out.len();
    if len >= 2 && out[len - 1] == '=' && out[len - 2] == '=' {
        let idx = (total - 3) as usize;
        let k = base64_position(out[idx]);
        let d = base64_digit(k - k % 4);
        out.set(idx, d);
    }
    out
}

/// What the standard base64 engine of the `base64` crate decodes a text to,
/// or nothing when the text is not valid padded base64.
pub uninterp spec fn base64_decode_result(s: Seq<char>) -> Option<Seq<u8>>;

/// Decodes text with `base64::engine::general_purpose::STANDARD`. The
/// contract only names the result; it does not restate the base64 rules.
#[verifier::external_body]
fn base64_decode(chars: &Vec<char>) -> (r: Option<Vec<u8>>)
    ensures
        match r {
            Some(v) => base64_decode_result(chars@) == Some(v@),
            None => base64_decode_result(chars@) is None,
        },
{
    let text: String = chars.iter().collect();
    match base64::engine::general_purpose::STANDARD.decode(text.as_bytes()) {
        Ok(v) => Some(v),
        Err(_) => None,
    }
}

/// The key bytes from the decoded secret, or an `Unauthorized` refusal when
/// the secret is not valid base64.
pub fn signing_key_from_decoded(decoded: Option<Vec<u8>>) -> (r: Result<Vec<u8>, AppError>)
    ensures
        match decoded {
            Some(v) => r == Ok::<Vec<u8>, AppError>(v),
            None => r matches Err(e) && e@ == AppErrorView::Unauthorized("JWT_SECRET tidak valid"@),
        },
{
    match decoded {
        Some(v) => Ok(v),
        None => Err(unauthorized("JWT_SECRET tidak valid")),
    }
}

/// The key with which tokens are verified: the secret, normalized, then
/// base64-decoded; refused when it does not decode.
pub fn jwt_signing_key(secret: &str) -> (r: Result<Vec<u8>, AppError>)
    requires
        secret_normalizable(secret@),
    ensures
        match base64_decode_result(normalized_secret(secret@)) {
            Some(k) => r matches Ok(v) && v@ == k,
            None => r matches Err(e) && e@ == AppErrorView::Unauthorized("JWT_SECRET tidak valid"@),
        },
{
    let chars = normalize_jwt_secret(secret);
    signing_key_from_decoded(base64_decode(&chars))
}

/// The key internal services must present when the environment gives none.
pub fn service_key_or_default(configured: Option<String>) -> (r: String)
    ensures
        r@ == match configured {
            Some(c) => c@,
            None => "internal-secret"@,
        },
{
    match configured {
        Some(c) => c,
        None => owned("internal-secret"),
    }
}

/// Admits a call from an internal service only when the `X-Service-Key` it
/// presents (none counts as empty) equals the expected key.
pub fn check_service_key(presented: Option<&str>, expected: &str) -> (r: Result<(), AppError>)
    ensures
        r is Ok <==> match presented {
            Some(p) => p@ == expected@,
            None => expected@.len() == 0,
        },
        r matches Err(e) ==> e@ == AppErrorView::Unauthorized("Invalid service key"@),
{
    let p = match presented {
        Some(p) => p,
        None => "",
    };
    proof {
        reveal_strlit("");
        if presented is None && expected@.len() == 0 {
            assert(expected@ =~= ""@);
        }
    }
    if !str_eq(p, expected) {
        return Err(unauthorized("Invalid service key"));
    }
    Ok(())
}

} // verus!
