use smart_persona::config::{
    build_auth_config, stage_from_tag, AuthConfig, ConfigError, Jwt, JwtAdminSecret, JwtSecret,
    Stage,
};
use smart_persona::middleware::{admin_authorization, user_authorization};
use smart_persona::token::decode_token;
use smart_persona::user::{prepare_registration, RegisterUserModel, UserEntity};
use smart_persona::workflow::{
    admin_login, admin_refresh_request, admin_refresh_token, user_login, user_refresh_request,
    user_refresh_token, LoginModel, RefreshError,
};
use smart_persona::{AuthError, Role};

fn test_config() -> AuthConfig {
    AuthConfig {
        user: JwtSecret {
            user_secret: String::from("user-access-key"),
            user_refresh_secret: String::from("user-refresh-key"),
        },
        admin: JwtAdminSecret {
            admin_secret: String::from("admin-access-key"),
            admin_refresh_secret: String::from("admin-refresh-key"),
        },
        access_ttl_secs: 900,
        refresh_ttl_secs: 1209600,
        production: false,
    }
}

fn record(username: &str, password: &str, role: Role) -> UserEntity {
    UserEntity {
        id: String::from("6f9619ff-8b86-d011-b42d-00c04fc964ff"),
        username: String::from(username),
        password_hash: bcrypt::hash(password, 4).unwrap(),
        display_name: None,
        role,
        created_at: 0,
        updated_at: 0,
        first_name: String::from("Alice"),
        last_name: String::from("Example"),
    }
}

fn login(username: &str, password: &str) -> LoginModel {
    LoginModel { username: String::from(username), password: String::from(password) }
}

#[test]
fn login_issues_passport_with_role() {
    let cfg = test_config();
    let alice = record("alice", "correct-pw", Role::User);
    let passport =
        user_login(Some(&alice), &login("alice", "correct-pw"), &cfg, 1000).unwrap();
    let claims = decode_token(&passport.access_token, "user-access-key", 1000).unwrap();
    assert_eq!(claims.role, Role::User);
    assert_eq!(claims.subject, "6f9619ff-8b86-d011-b42d-00c04fc964ff");
    assert_eq!(claims.issued_at, 1000);
    assert_eq!(claims.expires_at, 1900);
    let refresh = decode_token(&passport.refresh_token, "user-refresh-key", 1000).unwrap();
    assert_eq!(refresh.expires_at, 1000 + 1209600);
}

#[test]
fn login_with_wrong_password_fails() {
    let cfg = test_config();
    let alice = record("alice", "correct-pw", Role::User);
    let r = user_login(Some(&alice), &login("alice", "wrong-pw"), &cfg, 1000);
    assert_eq!(r.unwrap_err(), AuthError::InvalidCredentials);
    assert_eq!(AuthError::InvalidCredentials.status_code(), 401);
}

#[test]
fn login_with_unknown_user_fails() {
    let cfg = test_config();
    let r = user_login(None, &login("nobody", "pw"), &cfg, 1000);
    assert_eq!(r.unwrap_err(), AuthError::InvalidCredentials);
}

#[test]
fn admin_login_rejects_non_admin_record() {
    let cfg = test_config();
    let alice = record("alice", "correct-pw", Role::User);
    // The password matches, but the record's tier is wrong.
    let r = admin_login(Some(&alice), &login("alice", "correct-pw"), &cfg, 1000);
    assert_eq!(r.unwrap_err(), AuthError::InvalidCredentials);
}

#[test]
fn admin_login_issues_admin_passport() {
    let cfg = test_config();
    let root = record("root", "admin-pw", Role::Admin);
    let passport =
        admin_login(Some(&root), &login("root", "admin-pw"), &cfg, 1000).unwrap();
    let claims = decode_token(&passport.access_token, "admin-access-key", 1000).unwrap();
    assert_eq!(claims.role, Role::Admin);
}

#[test]
fn refresh_rotates_the_pair() {
    let cfg = test_config();
    let alice = record("alice", "correct-pw", Role::UserAndCompany);
    let p1 = user_login(Some(&alice), &login("alice", "correct-pw"), &cfg, 1000).unwrap();
    let p2 = user_refresh_token(&p1.refresh_token, &cfg, 1007).unwrap();
    assert_ne!(p2.access_token, p1.access_token);
    assert_ne!(p2.refresh_token, p1.refresh_token);
    let claims = decode_token(&p2.access_token, "user-access-key", 1007).unwrap();
    assert_eq!(claims.role, Role::UserAndCompany);
    assert_eq!(claims.issued_at, 1007);
    assert_eq!(claims.expires_at, 1007 + 900);
}

#[test]
fn refresh_rejects_access_token() {
    // An access token is signed with the access half of the pair; the
    // refresh endpoint must not accept it.
    let cfg = test_config();
    let alice = record("alice", "correct-pw", Role::User);
    let p = user_login(Some(&alice), &login("alice", "correct-pw"), &cfg, 1000).unwrap();
    let r = user_refresh_token(&p.access_token, &cfg, 1001);
    assert_eq!(r.unwrap_err(), AuthError::Unauthorized);
}

#[test]
fn refresh_rejects_expired_refresh_token() {
    let cfg = test_config();
    let alice = record("alice", "correct-pw", Role::User);
    let p = user_login(Some(&alice), &login("alice", "correct-pw"), &cfg, 1000).unwrap();
    let late = 1000 + 1209600;
    let r = user_refresh_token(&p.refresh_token, &cfg, late);
    assert_eq!(r.unwrap_err(), AuthError::Unauthorized);
}

#[test]
fn admin_refresh_rejects_user_refresh_token() {
    let cfg = test_config();
    let alice = record("alice", "correct-pw", Role::User);
    let p = user_login(Some(&alice), &login("alice", "correct-pw"), &cfg, 1000).unwrap();
    let r = admin_refresh_token(&p.refresh_token, &cfg, 1001);
    assert_eq!(r.unwrap_err(), AuthError::Unauthorized);
}

#[test]
fn refresh_request_without_cookie_is_bad_request() {
    let cfg = test_config();
    let r = user_refresh_request(Some("foo=bar"), &cfg, 1000);
    assert_eq!(r.unwrap_err(), RefreshError::MissingToken);
    assert_eq!(RefreshError::MissingToken.status_code(), 400);
    assert_eq!(RefreshError::Unauthorized.status_code(), 401);
    let r = admin_refresh_request(None, &cfg, 1000);
    assert_eq!(r.unwrap_err(), RefreshError::MissingToken);
}

#[test]
fn refresh_request_with_cookie_rotates() {
    let cfg = test_config();
    let alice = record("alice", "correct-pw", Role::UserAndCompany);
    let p1 = user_login(Some(&alice), &login("alice", "correct-pw"), &cfg, 1000).unwrap();
    let header = format!("act={}; rft={}", p1.access_token, p1.refresh_token);
    let p2 = user_refresh_request(Some(&header), &cfg, 1005).unwrap();
    assert_ne!(p2.access_token, p1.access_token);
}

fn header_for(token: &str) -> String {
    format!("act={token}")
}

#[test]
fn user_middleware_accepts_company_and_admin() {
    let cfg = test_config();
    let company = record("c", "pw", Role::UserAndCompany);
    let p = user_login(Some(&company), &login("c", "pw"), &cfg, 1000).unwrap();
    let id = user_authorization(Some(&header_for(&p.access_token)), &cfg, 1001).unwrap();
    assert_eq!(id.role, Role::UserAndCompany);

    let root = record("root", "pw", Role::Admin);
    let p = admin_login(Some(&root), &login("root", "pw"), &cfg, 1000).unwrap();
    // An admin token satisfies user-tier routes through the admin secret.
    let id = user_authorization(Some(&header_for(&p.access_token)), &cfg, 1001).unwrap();
    assert_eq!(id.role, Role::Admin);
}

#[test]
fn user_middleware_rejects_plain_user_role() {
    let cfg = test_config();
    let plain = record("u", "pw", Role::User);
    let p = user_login(Some(&plain), &login("u", "pw"), &cfg, 1000).unwrap();
    let r = user_authorization(Some(&header_for(&p.access_token)), &cfg, 1001);
    assert_eq!(r.unwrap_err(), AuthError::Unauthorized);
}

#[test]
fn admin_middleware_rejects_user_tier_token() {
    let cfg = test_config();
    let company = record("c", "pw", Role::UserAndCompany);
    let p = user_login(Some(&company), &login("c", "pw"), &cfg, 1000).unwrap();
    // Validly signed with the user secret, but the role is not Admin.
    let r = admin_authorization(Some(&header_for(&p.access_token)), &cfg, 1001);
    assert_eq!(r.unwrap_err(), AuthError::Unauthorized);
}

#[test]
fn admin_middleware_accepts_admin_token() {
    let cfg = test_config();
    let root = record("root", "pw", Role::Admin);
    let p = admin_login(Some(&root), &login("root", "pw"), &cfg, 1000).unwrap();
    let id = admin_authorization(Some(&header_for(&p.access_token)), &cfg, 1001).unwrap();
    assert_eq!(id.role, Role::Admin);
    assert_eq!(id.subject, "6f9619ff-8b86-d011-b42d-00c04fc964ff");
}

#[test]
fn middleware_rejects_one_second_past_expiry() {
    let cfg = test_config();
    let company = record("c", "pw", Role::UserAndCompany);
    let p = user_login(Some(&company), &login("c", "pw"), &cfg, 1000).unwrap();
    let header = header_for(&p.access_token);
    let past = 1000 + 900 + 1;
    assert_eq!(
        user_authorization(Some(&header), &cfg, past).unwrap_err(),
        AuthError::Unauthorized
    );
    assert_eq!(
        admin_authorization(Some(&header), &cfg, past).unwrap_err(),
        AuthError::Unauthorized
    );

    let root = record("root", "pw", Role::Admin);
    let p = admin_login(Some(&root), &login("root", "pw"), &cfg, 1000).unwrap();
    assert_eq!(
        admin_authorization(Some(&header_for(&p.access_token)), &cfg, past).unwrap_err(),
        AuthError::Unauthorized
    );
}

#[test]
fn middleware_rejects_missing_or_absent_cookie() {
    let cfg = test_config();
    assert_eq!(user_authorization(None, &cfg, 0).unwrap_err(), AuthError::Unauthorized);
    assert_eq!(
        user_authorization(Some("foo=bar"), &cfg, 0).unwrap_err(),
        AuthError::Unauthorized
    );
    assert_eq!(admin_authorization(None, &cfg, 0).unwrap_err(), AuthError::Unauthorized);
}

fn jwt(user: &str, user_r: &str, admin: &str, admin_r: &str, acc: &str, refr: &str) -> Jwt {
    Jwt {
        user: JwtSecret {
            user_secret: String::from(user),
            user_refresh_secret: String::from(user_r),
        },
        admin: JwtAdminSecret {
            admin_secret: String::from(admin),
            admin_refresh_secret: String::from(admin_r),
        },
        access_token_expiration: String::from(acc),
        refresh_token_expiration: String::from(refr),
    }
}

#[test]
fn config_validation_accepts_good_settings() {
    let cfg = build_auth_config(&jwt("a", "b", "c", "d", "900", "1209600"), Stage::Production)
        .unwrap();
    assert_eq!(cfg.access_ttl_secs, 900);
    assert_eq!(cfg.refresh_ttl_secs, 1209600);
    assert!(cfg.production);
    assert_eq!(cfg.user.user_secret, "a");
    assert_eq!(cfg.admin.admin_refresh_secret, "d");
}

#[test]
fn config_validation_rejects_missing_secret() {
    let r = build_auth_config(&jwt("", "b", "c", "d", "900", "86400"), Stage::Local);
    assert_eq!(r.unwrap_err(), ConfigError::MissingSecret);
}

#[test]
fn config_validation_rejects_bad_ttl() {
    for ttl in ["", "0", "15m", "-1"] {
        let r = build_auth_config(&jwt("a", "b", "c", "d", ttl, "86400"), Stage::Local);
        assert_eq!(r.unwrap_err(), ConfigError::InvalidTtl, "ttl: {ttl}");
    }
}

#[test]
fn stage_parsing() {
    assert_eq!(stage_from_tag("Production"), Stage::Production);
    assert_eq!(stage_from_tag("production"), Stage::Local);
    assert_eq!(stage_from_tag(""), Stage::Local);
}

#[test]
fn registration_hash_verifies_against_password() {
    let model = RegisterUserModel {
        username: String::from("alice"),
        firstname: String::from("Alice"),
        lastname: String::from("Example"),
        password: String::from("correct-pw"),
    };
    let entity = prepare_registration(&model, 77).unwrap();
    assert_eq!(entity.username, "alice");
    assert_eq!(entity.created_at, 77);
    // The stored value is a hash that matches the submitted password, not
    // the password itself.
    assert_ne!(entity.password_hash, "correct-pw");
    assert!(bcrypt::verify("correct-pw", &entity.password_hash).unwrap());

    let cfg = test_config();
    let stored = UserEntity {
        id: String::from("11111111-2222-3333-4444-555555555555"),
        username: entity.username,
        password_hash: entity.password_hash,
        display_name: None,
        role: Role::User,
        created_at: entity.created_at,
        updated_at: entity.updated_at,
        first_name: entity.first_name,
        last_name: entity.last_name,
    };
    let login_ok = user_login(
        Some(&stored),
        &LoginModel {
            username: String::from("alice"),
            password: String::from("correct-pw"),
        },
        &cfg,
        10,
    );
    assert!(login_ok.is_ok());
}
