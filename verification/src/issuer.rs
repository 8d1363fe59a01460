//! The token issuer: builds the access/refresh token pair for a subject and
//! role, signing each half with the secret pair of the subject's tier.

use vstd::prelude::*;
use crate::Role;
use crate::config::{AuthConfig, AuthConfigView};
use crate::text::no_char;
use crate::token::{
    Claims, ClaimsView, encode_token, signed_chars, lemma_signed_injective,
};

verus! {

/// The pair handed back on a successful login or refresh: the short-lived
/// access token and the longer-lived refresh token.
#[derive(Debug)]
pub struct Passport {
    pub access_token: String,
    pub refresh_token: String,
}

/// The secret that signs access tokens for a role: the admin secret for
/// `Admin`, the user secret otherwise.
pub open spec fn access_secret_for(role: Role, cfg: AuthConfigView) -> Seq<char> {
    if role.is_admin_tier() {
        cfg.admin.admin_secret
    } else {
        cfg.user.user_secret
    }
}

/// The secret that signs refresh tokens for a role.
pub open spec fn refresh_secret_for(role: Role, cfg: AuthConfigView) -> Seq<char> {
    if role.is_admin_tier() {
        cfg.admin.admin_refresh_secret
    } else {
        cfg.user.user_refresh_secret
    }
}

/// The claims of a token issued at `now` with validity `ttl`.
pub open spec fn issued_claims(subject: Seq<char>, role: Role, now: u64, ttl: u64) -> ClaimsView {
    ClaimsView { subject: subject, role: role, issued_at: now, expires_at: (now + ttl) as u64 }
}

/// Issue a fresh access/refresh pair for `subject` with `role`, both issued
/// at `now`: the access token expires after `access_ttl_secs`, the refresh
/// token after `refresh_ttl_secs`, each signed with its half of the tier's
/// secret pair.
pub fn issue_pair(subject: &str, role: Role, cfg: &AuthConfig, now: u64) -> (p: Passport)
    requires
        subject@.len() > 0,
        no_char(subject@, '.'),
        cfg@.wf(),
        now + cfg.access_ttl_secs <= u64::MAX,
        now + cfg.refresh_ttl_secs <= u64::MAX,
    ensures
        p.access_token@ == signed_chars(
            issued_claims(subject@, role, now, cfg@.access_ttl_secs),
            access_secret_for(role, cfg@),
        ),
        p.refresh_token@ == signed_chars(
            issued_claims(subject@, role, now, cfg@.refresh_ttl_secs),
            refresh_secret_for(role, cfg@),
        ),
{
    let access_claims = Claims {
        subject: subject.to_owned(),
        role,
        issued_at: now,
        expires_at: now + cfg.access_ttl_secs,
    };
    let refresh_claims = Claims {
        subject: subject.to_owned(),
        role,
        issued_at: now,
        expires_at: now + cfg.refresh_ttl_secs,
    };
    let (access_secret, refresh_secret) = match role {
        Role::Admin => (cfg.admin.admin_secret.as_str(), cfg.admin.admin_refresh_secret.as_str()),
        _ => (cfg.user.user_secret.as_str(), cfg.user.user_refresh_secret.as_str()),
    };
    let access_token = encode_token(&access_claims, access_secret);
    let refresh_token = encode_token(&refresh_claims, refresh_secret);
    proof {
        assert(access_claims@ =~= issued_claims(subject@, role, now, cfg@.access_ttl_secs));
        assert(refresh_claims@ =~= issued_claims(subject@, role, now, cfg@.refresh_ttl_secs));
    }
    Passport { access_token, refresh_token }
}

/// Rotation is visible in the token text: tokens whose claims were issued
/// at different times are different strings, whatever secrets signed them.
/// (Two issuances within the same second are not distinguished.)
pub proof fn lemma_rotation_distinct(
    c_new: ClaimsView,
    s_new: Seq<char>,
    c_old: ClaimsView,
    s_old: Seq<char>,
)
    requires
        c_new.subject_ok(),
        c_old.subject_ok(),
        c_new.issued_at != c_old.issued_at,
    ensures
        signed_chars(c_new, s_new) != signed_chars(c_old, s_old),
{
    if signed_chars(c_new, s_new) == signed_chars(c_old, s_old) {
        lemma_signed_injective(c_new, s_new, c_old, s_old);
    }
}

} // verus!
