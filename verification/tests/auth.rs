use json_order_service::auth::{
    authorization_header, bearer_token, check_service_key, jwt_secret_or_default, jwt_signing_key,
    normalize_jwt_secret, secret_is_normalizable, service_key_or_default, signing_key_from_decoded, user_id_from_parsed,
    JwtClaims,
};
use json_order_service::error::AppError;
use json_order_service::models::role::Role;

fn claims(sub: &str, role: &str) -> JwtClaims {
    JwtClaims { sub: sub.into(), email: String::new(), role: role.into(), exp: 0, iat: 0 }
}

#[test]
fn user_id_reads_uuid_subject() {
    let id = uuid::Uuid::parse_str("550e8400-e29b-41d4-a716-446655440000").unwrap();
    assert_eq!(claims("550e8400-e29b-41d4-a716-446655440000", "ADMIN").user_id().unwrap(), id.as_u128());
    match claims("not-a-uuid", "ADMIN").user_id() {
        Err(AppError::Unauthorized(m)) => assert_eq!(m, "Token subject bukan UUID valid"),
        other => panic!("unexpected {:?}", other),
    }
    assert_eq!(user_id_from_parsed(Some(5)).unwrap(), 5);
    assert!(user_id_from_parsed(None).is_err());
}

#[test]
fn role_reads_role_name() {
    assert_eq!(claims("x", "JASTIPER").role().unwrap(), Role::Jastiper);
    match claims("x", "boss").role() {
        Err(AppError::Unauthorized(m)) => {
            assert_eq!(m, "Role tidak valid: Nilai Role tidak valid: 'boss'")
        }
        other => panic!("unexpected {:?}", other),
    }
}

#[test]
fn bearer_token_forms() {
    assert_eq!(bearer_token("Bearer abc.def").unwrap(), "abc.def");
    assert_eq!(bearer_token("Bearer ").unwrap(), "");
    match bearer_token("Basic abc") {
        Err(AppError::Unauthorized(m)) => assert_eq!(m, "Format token harus 'Bearer <token>'"),
        other => panic!("unexpected {:?}", other),
    }
    assert!(bearer_token("Bearer").is_err());
    assert_eq!(authorization_header(Some("h")).unwrap(), "h");
    match authorization_header(None) {
        Err(AppError::Unauthorized(m)) => assert_eq!(m, "Header Authorization tidak ditemukan"),
        other => panic!("unexpected {:?}", other),
    }
}

fn text(v: Vec<char>) -> String {
    v.into_iter().collect()
}

#[test]
fn secret_normalization() {
    // white space is dropped; a multiple of 4 needs no padding
    assert_eq!(text(normalize_jwt_secret(" ab cd\n")), "abcd");
    // 6 bytes: two '=' added, and 'f' (index 31) before them rounds down to 'c' (28)
    assert_eq!(text(normalize_jwt_secret("abcdef")), "abcdec==");
    // already a multiple of 4 and no "==" ending: unchanged
    assert_eq!(text(normalize_jwt_secret("abcdefgh")), "abcdefgh");
    assert_eq!(text(normalize_jwt_secret("QUJDRA")), "QUJDRA==");
    assert_eq!(text(normalize_jwt_secret("QUJDRB")), "QUJDRA==");
    // 7 bytes: one '=' added, nothing rounded
    assert_eq!(text(normalize_jwt_secret("QUJDREV")), "QUJDREV=");
}

#[test]
fn signing_key_decodes_secret() {
    assert_eq!(jwt_signing_key("QUJDRA").unwrap(), b"ABCD".to_vec());
    assert_eq!(jwt_signing_key("QUJD RB").unwrap(), b"ABCD".to_vec());
    match jwt_signing_key("@@@@") {
        Err(AppError::Unauthorized(m)) => assert_eq!(m, "JWT_SECRET tidak valid"),
        other => panic!("unexpected {:?}", other),
    }
    assert_eq!(signing_key_from_decoded(Some(vec![1, 2])).unwrap(), vec![1, 2]);
    assert_eq!(jwt_secret_or_default(None), "change-me");
    assert_eq!(jwt_secret_or_default(Some("s".into())), "s");
}

#[test]
fn service_key_check() {
    assert!(check_service_key(Some("internal-secret"), "internal-secret").is_ok());
    match check_service_key(Some("wrong"), "internal-secret") {
        Err(AppError::Unauthorized(m)) => assert_eq!(m, "Invalid service key"),
        other => panic!("unexpected {:?}", other),
    }
    assert!(check_service_key(None, "internal-secret").is_err());
    assert!(check_service_key(None, "").is_ok());
    assert_eq!(service_key_or_default(None), "internal-secret");
}

#[test]
fn user_id_accepts_every_uuid_form() {
    let id = 0x550e8400_e29b_41d4_a716_446655440000u128;
    for text in [
        "550e8400e29b41d4a716446655440000",
        "550E8400-E29B-41D4-A716-446655440000",
        "{550e8400-e29b-41d4-a716-446655440000}",
        "urn:uuid:550e8400-e29b-41d4-a716-446655440000",
        "URN:UUID:550e8400-e29b-41d4-a716-446655440000",
    ] {
        assert_eq!(claims(text, "ADMIN").user_id().unwrap(), id, "{text}");
    }
    for text in [
        "",
        "550e8400-e29b-41d4-a716-44665544000",
        "550e8400e29b-41d4-a716-4466554400000",
        "{550e8400-e29b-41d4-a716-446655440000",
        "urn:uid:550e8400-e29b-41d4-a716-4466554400000",
        "550e8400-e29b-41d4-a716-44665544000g",
    ] {
        assert!(claims(text, "ADMIN").user_id().is_err(), "{text}");
    }
}

#[test]
fn uuid_text_reads_back() {
    for id in [0u128, 1, 0x550e8400_e29b_41d4_a716_446655440000, u128::MAX] {
        let text = uuid::Uuid::from_u128(id).to_string();
        assert_eq!(claims(&text, "ADMIN").user_id().unwrap(), id);
    }
}

#[test]
fn secret_normalizable_unless_the_rounded_position_is_past_the_end() {
    assert!(secret_is_normalizable("abcdef"));
    assert!(secret_is_normalizable(""));
    assert!(secret_is_normalizable("\u{e9}"));
    assert!(!secret_is_normalizable("\u{e9}\u{e9}\u{e9}"));
}
