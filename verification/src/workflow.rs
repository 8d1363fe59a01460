//! The authentication workflow: login (verify credentials, then issue a
//! token pair) and refresh (verify the old refresh token, then mint a new
//! pair), for the user tier and the admin tier. The credential lookup is an
//! outside collaborator; these functions take its result as an argument.

use vstd::prelude::*;
use crate::{AuthError, Role, opt_str_chars};
use crate::config::{AuthConfig, AuthConfigView};
use crate::cookie::{cookie_lookup, extract_refresh};
use crate::issuer::{
    Passport, issue_pair, issued_claims, access_secret_for, refresh_secret_for,
};
use crate::password::{password_matches, verify_password};
use crate::token::{decode_token, spec_decode, signed_chars, lemma_parse_subject_ok};
use crate::user::UserEntity;

verus! {

/// A login request body.
#[derive(Debug)]
pub struct LoginModel {
    pub username: String,
    pub password: String,
}

/// The passport issued to `subject` with `role` at `now` under `cfg`.
pub open spec fn issued_passport(
    p: Passport,
    subject: Seq<char>,
    role: Role,
    cfg: AuthConfigView,
    now: u64,
) -> bool {
    &&& p.access_token@ == signed_chars(
        issued_claims(subject, role, now, cfg.access_ttl_secs),
        access_secret_for(role, cfg),
    )
    &&& p.refresh_token@ == signed_chars(
        issued_claims(subject, role, now, cfg.refresh_ttl_secs),
        refresh_secret_for(role, cfg),
    )
}

/// User-tier login: `record` is the credential row looked up for the
/// submitted username (`None` when the username is unknown). An unknown
/// username and a wrong password yield the same `InvalidCredentials`; a
/// matching password yields a passport for the record's subject and role.
pub fn user_login(
    record: Option<&UserEntity>,
    login: &LoginModel,
    cfg: &AuthConfig,
    now: u64,
) -> (r: Result<Passport, AuthError>)
    requires
        cfg@.wf(),
        now + cfg.access_ttl_secs <= u64::MAX,
        now + cfg.refresh_ttl_secs <= u64::MAX,
        record matches Some(u) ==> u.id_ok(),
    ensures
        match record {
            None => r == Err::<Passport, AuthError>(AuthError::InvalidCredentials),
            Some(u) => {
                if password_matches(login.password@, u.password_hash@) {
                    r matches Ok(p) && issued_passport(p, u.id@, u.role, cfg@, now)
                } else {
                    r == Err::<Passport, AuthError>(AuthError::InvalidCredentials)
                }
            },
        },
{
    match record {
        None => Err(AuthError::InvalidCredentials),
        Some(u) => {
            if verify_password(login.password.as_str(), u.password_hash.as_str()) {
                Ok(issue_pair(u.id.as_str(), u.role, cfg, now))
            } else {
                Err(AuthError::InvalidCredentials)
            }
        },
    }
}

/// Admin-tier login: as `user_login`, but a record whose role is not
/// `Admin` is rejected with the same `InvalidCredentials` even when the
/// password matches.
pub fn admin_login(
    record: Option<&UserEntity>,
    login: &LoginModel,
    cfg: &AuthConfig,
    now: u64,
) -> (r: Result<Passport, AuthError>)
    requires
        cfg@.wf(),
        now + cfg.access_ttl_secs <= u64::MAX,
        now + cfg.refresh_ttl_secs <= u64::MAX,
        record matches Some(u) ==> u.id_ok(),
    ensures
        match record {
            None => r == Err::<Passport, AuthError>(AuthError::InvalidCredentials),
            Some(u) => {
                if password_matches(login.password@, u.password_hash@) && u.role is Admin {
                    r matches Ok(p) && issued_passport(p, u.id@, Role::Admin, cfg@, now)
                } else {
                    r == Err::<Passport, AuthError>(AuthError::InvalidCredentials)
                }
            },
        },
{
    match record {
        None => Err(AuthError::InvalidCredentials),
        Some(u) => {
            if verify_password(login.password.as_str(), u.password_hash.as_str()) {
                if u.role == Role::Admin {
                    Ok(issue_pair(u.id.as_str(), u.role, cfg, now))
                } else {
                    Err(AuthError::InvalidCredentials)
                }
            } else {
                Err(AuthError::InvalidCredentials)
            }
        },
    }
}

/// What refreshing against `secret` yields: a new pair for the decoded
/// claims' subject and role, or `Unauthorized` for any decode failure —
/// terminal for that token, the client must log in again.
pub open spec fn refresh_outcome(
    r: Result<Passport, AuthError>,
    t: Seq<char>,
    secret: Seq<char>,
    cfg: AuthConfigView,
    now: u64,
) -> bool {
    match spec_decode(t, secret, now) {
        Ok(c) => r matches Ok(p) && issued_passport(p, c.subject, c.role, cfg, now),
        Err(_) => r == Err::<Passport, AuthError>(AuthError::Unauthorized),
    }
}

/// Rotate a user-tier session: decode the refresh token against the user
/// refresh secret and mint a fresh pair for its subject and role.
pub fn user_refresh_token(refresh_token: &str, cfg: &AuthConfig, now: u64) -> (r: Result<
    Passport,
    AuthError,
>)
    requires
        cfg@.wf(),
        now + cfg.access_ttl_secs <= u64::MAX,
        now + cfg.refresh_ttl_secs <= u64::MAX,
    ensures
        refresh_outcome(r, refresh_token@, cfg@.user.user_refresh_secret, cfg@, now),
{
    match decode_token(refresh_token, cfg.user.user_refresh_secret.as_str(), now) {
        Ok(c) => {
            proof {
                lemma_parse_subject_ok(refresh_token@);
            }
            Ok(issue_pair(c.subject.as_str(), c.role, cfg, now))
        },
        Err(_) => Err(AuthError::Unauthorized),
    }
}

/// Rotate an admin-tier session against the admin refresh secret.
pub fn admin_refresh_token(refresh_token: &str, cfg: &AuthConfig, now: u64) -> (r: Result<
    Passport,
    AuthError,
>)
    requires
        cfg@.wf(),
        now + cfg.access_ttl_secs <= u64::MAX,
        now + cfg.refresh_ttl_secs <= u64::MAX,
    ensures
        refresh_outcome(r, refresh_token@, cfg@.admin.admin_refresh_secret, cfg@, now),
{
    match decode_token(refresh_token, cfg.admin.admin_refresh_secret.as_str(), now) {
        Ok(c) => {
            proof {
                lemma_parse_subject_ok(refresh_token@);
            }
            Ok(issue_pair(c.subject.as_str(), c.role, cfg, now))
        },
        Err(_) => Err(AuthError::Unauthorized),
    }
}

/// Rotation: a passport issued at `now` — as every successful refresh
/// does — carries an access token distinct from any earlier token whose
/// claims were issued at another time, and its access expiry is a fresh
/// window of `access_ttl_secs` from `now`. (Two issuances within the same
/// second produce the same token and are not distinguished.)
pub proof fn lemma_refresh_rotates(
    p: Passport,
    subject: Seq<char>,
    role: Role,
    cfg: AuthConfigView,
    now: u64,
    c_old: crate::token::ClaimsView,
    s_old: Seq<char>,
)
    requires
        issued_passport(p, subject, role, cfg, now),
        subject.len() > 0,
        crate::text::no_char(subject, '.'),
        c_old.subject_ok(),
        now != c_old.issued_at,
        now + cfg.access_ttl_secs <= u64::MAX,
    ensures
        p.access_token@ != signed_chars(c_old, s_old),
        issued_claims(subject, role, now, cfg.access_ttl_secs).expires_at == now
            + cfg.access_ttl_secs,
{
    crate::issuer::lemma_rotation_distinct(
        issued_claims(subject, role, now, cfg.access_ttl_secs),
        access_secret_for(role, cfg),
        c_old,
        s_old,
    );
}

/// Why a refresh request failed.
#[derive(Debug, Clone, Copy, PartialEq, Eq, Structural)]
pub enum RefreshError {
    /// No `rft` cookie was present: there is no session to refresh. The one
    /// failure surfaced as HTTP 400 rather than 401.
    MissingToken,
    /// The refresh token did not verify.
    Unauthorized,
}

impl RefreshError {
    /// A missing cookie is a bad request; everything else is unauthorized.
    pub fn status_code(&self) -> (c: u16)
        ensures
            c == (if self is MissingToken {
                400u16
            } else {
                401u16
            }),
    {
        match self {
            RefreshError::MissingToken => 400,
            RefreshError::Unauthorized => 401,
        }
    }
}

/// What a whole refresh request yields, given its `Cookie` header.
pub open spec fn refresh_request_outcome(
    r: Result<Passport, RefreshError>,
    header: Option<Seq<char>>,
    secret: Seq<char>,
    cfg: AuthConfigView,
    now: u64,
) -> bool {
    match header {
        None => r == Err::<Passport, RefreshError>(RefreshError::MissingToken),
        Some(h) => match cookie_lookup(h, "rft"@) {
            None => r == Err::<Passport, RefreshError>(RefreshError::MissingToken),
            Some(t) => match spec_decode(t, secret, now) {
                Ok(c) => r matches Ok(p) && issued_passport(p, c.subject, c.role, cfg, now),
                Err(_) => r == Err::<Passport, RefreshError>(RefreshError::Unauthorized),
            },
        },
    }
}

/// Handle a user-tier refresh request from its `Cookie` header: extract the
/// `rft` cookie, then rotate.
pub fn user_refresh_request(cookie_header: Option<&str>, cfg: &AuthConfig, now: u64) -> (r: Result<
    Passport,
    RefreshError,
>)
    requires
        cfg@.wf(),
        now + cfg.access_ttl_secs <= u64::MAX,
        now + cfg.refresh_ttl_secs <= u64::MAX,
    ensures
        refresh_request_outcome(
            r,
            opt_str_chars(cookie_header),
            cfg@.user.user_refresh_secret,
            cfg@,
            now,
        ),
{
    let header = match cookie_header {
        None => {
            return Err(RefreshError::MissingToken);
        },
        Some(h) => h,
    };
    let token = match extract_refresh(header) {
        None => {
            return Err(RefreshError::MissingToken);
        },
        Some(t) => t,
    };
    match user_refresh_token(token.as_str(), cfg, now) {
        Ok(p) => Ok(p),
        Err(_) => Err(RefreshError::Unauthorized),
    }
}

/// Handle an admin-tier refresh request from its `Cookie` header.
pub fn admin_refresh_request(cookie_header: Option<&str>, cfg: &AuthConfig, now: u64) -> (r:
    Result<Passport, RefreshError>)
    requires
        cfg@.wf(),
        now + cfg.access_ttl_secs <= u64::MAX,
        now + cfg.refresh_ttl_secs <= u64::MAX,
    ensures
        refresh_request_outcome(
            r,
            opt_str_chars(cookie_header),
            cfg@.admin.admin_refresh_secret,
            cfg@,
            now,
        ),
{
    let header = match cookie_header {
        None => {
            return Err(RefreshError::MissingToken);
        },
        Some(h) => h,
    };
    let token = match extract_refresh(header) {
        None => {
            return Err(RefreshError::MissingToken);
        },
        Some(t) => t,
    };
    match admin_refresh_token(token.as_str(), cfg, now) {
        Ok(p) => Ok(p),
        Err(_) => Err(RefreshError::Unauthorized),
    }
}

} // verus!
