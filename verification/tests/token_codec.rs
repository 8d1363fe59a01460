use smart_persona::Role;
use smart_persona::token::{decode_token, encode_token, Claims, TokenError};

fn claims(subject: &str, role: Role, issued_at: u64, expires_at: u64) -> Claims {
    Claims { subject: String::from(subject), role, issued_at, expires_at }
}

#[test]
fn round_trip_user_role() {
    let c = claims("6f9619ff-8b86-d011-b42d-00c04fc964ff", Role::User, 100, 200);
    let token = encode_token(&c, "user-access-secret");
    let back = decode_token(&token, "user-access-secret", 150).unwrap();
    assert_eq!(back.subject, "6f9619ff-8b86-d011-b42d-00c04fc964ff");
    assert_eq!(back.role, Role::User);
    assert_eq!(back.issued_at, 100);
    assert_eq!(back.expires_at, 200);
}

#[test]
fn round_trip_all_roles() {
    for role in [Role::User, Role::UserAndCompany, Role::Admin] {
        let c = claims("subject-1", role, 5, 6);
        let token = encode_token(&c, "k");
        let back = decode_token(&token, "k", 5).unwrap();
        assert_eq!(back.role, role);
    }
}

#[test]
fn wrong_secret_is_invalid_signature() {
    let c = claims("s1", Role::User, 100, 200);
    let token = encode_token(&c, "user-secret");
    assert_eq!(
        decode_token(&token, "admin-secret", 150).unwrap_err(),
        TokenError::InvalidSignature
    );
    let a = claims("s1", Role::Admin, 100, 200);
    let admin_token = encode_token(&a, "admin-secret");
    assert_eq!(
        decode_token(&admin_token, "user-secret", 150).unwrap_err(),
        TokenError::InvalidSignature
    );
}

#[test]
fn expired_even_with_valid_signature() {
    let c = claims("s1", Role::User, 100, 200);
    let token = encode_token(&c, "k");
    assert_eq!(decode_token(&token, "k", 200).unwrap_err(), TokenError::Expired);
    assert_eq!(decode_token(&token, "k", 201).unwrap_err(), TokenError::Expired);
    assert!(decode_token(&token, "k", 199).is_ok());
}

#[test]
fn expired_checked_after_signature() {
    // An expired token under the wrong secret reports the signature, not
    // the expiry: the structure is checked, then the tag, then the clock.
    let c = claims("s1", Role::User, 100, 200);
    let token = encode_token(&c, "k1");
    assert_eq!(
        decode_token(&token, "k2", 500).unwrap_err(),
        TokenError::InvalidSignature
    );
}

#[test]
fn garbage_is_malformed() {
    for bad in [
        "",
        "no-dots-here",
        "a.b",
        "a.User.1",
        "a.User.1.2",
        ".User.1.2.tag",
        "a.Nobody.1.2.tag",
        "a.User.x.2.tag",
        "a.User.1.y.tag",
    ] {
        assert_eq!(
            decode_token(bad, "k", 0).unwrap_err(),
            TokenError::Malformed,
            "expected malformed: {bad}"
        );
    }
}

#[test]
fn non_canonical_numbers_are_malformed() {
    // The codec only ever emits canonical decimals; a leading zero is not a
    // token it could have produced.
    assert_eq!(
        decode_token("a.User.01.2.tag", "k", 0).unwrap_err(),
        TokenError::Malformed
    );
}

#[test]
fn tampered_tag_is_invalid_signature() {
    let c = claims("s1", Role::User, 100, 200);
    let token = encode_token(&c, "k");
    let payload = token.rsplit_once('.').unwrap().0;
    let forged = format!("{payload}.0000000000000000000000000000000000000000000000000000000000000000");
    assert_eq!(
        decode_token(&forged, "k", 150).unwrap_err(),
        TokenError::InvalidSignature
    );
}

#[test]
fn tampered_payload_is_invalid_signature() {
    let c = claims("s1", Role::User, 100, 200);
    let token = encode_token(&c, "k");
    // Escalate the role without re-signing.
    let forged = token.replace(".User.", ".Admin.");
    assert_ne!(forged, token);
    assert_eq!(
        decode_token(&forged, "k", 150).unwrap_err(),
        TokenError::InvalidSignature
    );
}

#[test]
fn token_shape_and_secret_dependence() {
    let c = claims("s1", Role::User, 100, 200);
    let t1 = encode_token(&c, "ka");
    let t2 = encode_token(&c, "kb");
    assert!(t1.starts_with("s1.User.100.200."));
    assert!(t2.starts_with("s1.User.100.200."));
    // The tag depends on the secret.
    assert_ne!(t1, t2);
    // The tag is 64 lowercase hex characters.
    let tag = t1.rsplit_once('.').unwrap().1;
    assert_eq!(tag.len(), 64);
    assert!(tag.chars().all(|ch| ch.is_ascii_hexdigit() && !ch.is_ascii_uppercase()));
}

#[test]
fn encoding_is_deterministic() {
    let c1 = claims("s1", Role::User, 100, 200);
    let c2 = claims("s1", Role::User, 100, 200);
    assert_eq!(encode_token(&c1, "k"), encode_token(&c2, "k"));
}
