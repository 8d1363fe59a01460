//! Authorization middleware decisions. Each protected request hands its
//! `Cookie` header here; the decision recovers the access token, verifies
//! it against the secrets of the route's tier, and either yields the
//! authenticated identity or rejects. All failures collapse to the same
//! `Unauthorized`: the client never learns whether a signature or an expiry
//! rejected the token.

use vstd::prelude::*;
use crate::{AuthError, Role, opt_str_chars};
use crate::config::{AuthConfig, AuthConfigView};
use crate::cookie::{cookie_lookup, extract_access};
use crate::token::{
    ClaimsView, decode_token, spec_decode, signed_chars, payload_chars, lemma_parse_of_shaped,
};
use crate::mac::signature_tag;

verus! {

/// The (subject, role) recovered from a verified access token; lives only
/// for the request being processed.
#[derive(Debug)]
pub struct Identity {
    pub subject: String,
    pub role: Role,
}

#[verifier::ext_equal]
pub struct IdentityView {
    pub subject: Seq<char>,
    pub role: Role,
}

impl View for Identity {
    type V = IdentityView;

    open spec fn view(&self) -> IdentityView {
        IdentityView { subject: self.subject@, role: self.role }
    }
}

/// Roles accepted on user-tier routes: `UserAndCompany` and `Admin`.
pub open spec fn user_tier_allows(role: Role) -> bool {
    role is UserAndCompany || role is Admin
}

pub open spec fn identity_of(c: ClaimsView) -> IdentityView {
    IdentityView { subject: c.subject, role: c.role }
}

/// The admin-side fallback of the user-tier decision, and the whole of the
/// admin-tier decision: the token must decode under the admin access secret
/// and carry the `Admin` role.
pub open spec fn admin_token_decision(t: Seq<char>, cfg: AuthConfigView, now: u64) -> Result<
    IdentityView,
    AuthError,
> {
    match spec_decode(t, cfg.admin.admin_secret, now) {
        Ok(c) => if c.role is Admin {
            Ok(identity_of(c))
        } else {
            Err(AuthError::Unauthorized)
        },
        Err(_) => Err(AuthError::Unauthorized),
    }
}

/// The user-tier decision: try the user access secret first; accept a
/// `UserAndCompany` or `Admin` role. Otherwise try the admin access secret,
/// accepting only `Admin` — this order lets an admin token satisfy
/// user-tier routes without the user tier holding the admin key.
pub open spec fn user_decision(header: Option<Seq<char>>, cfg: AuthConfigView, now: u64) -> Result<
    IdentityView,
    AuthError,
> {
    match header {
        None => Err(AuthError::Unauthorized),
        Some(h) => match cookie_lookup(h, "act"@) {
            None => Err(AuthError::Unauthorized),
            Some(t) => match spec_decode(t, cfg.user.user_secret, now) {
                Ok(c) => if user_tier_allows(c.role) {
                    Ok(identity_of(c))
                } else {
                    admin_token_decision(t, cfg, now)
                },
                Err(_) => admin_token_decision(t, cfg, now),
            },
        },
    }
}

/// The admin-tier decision: the admin access secret alone is consulted; a
/// user-signed token can never pass here.
pub open spec fn admin_decision(header: Option<Seq<char>>, cfg: AuthConfigView, now: u64) -> Result<
    IdentityView,
    AuthError,
> {
    match header {
        None => Err(AuthError::Unauthorized),
        Some(h) => match cookie_lookup(h, "act"@) {
            None => Err(AuthError::Unauthorized),
            Some(t) => admin_token_decision(t, cfg, now),
        },
    }
}

/// Authorize a request against the user tier.
pub fn user_authorization(cookie_header: Option<&str>, cfg: &AuthConfig, now: u64) -> (r: Result<
    Identity,
    AuthError,
>)
    ensures
        match r {
            Ok(id) => user_decision(opt_str_chars(cookie_header), cfg@, now) == Ok::<
                IdentityView,
                AuthError,
            >(id@),
            Err(e) => user_decision(opt_str_chars(cookie_header), cfg@, now) == Err::<
                IdentityView,
                AuthError,
            >(e),
        },
{
    let header = match cookie_header {
        None => {
            return Err(AuthError::Unauthorized);
        },
        Some(h) => h,
    };
    let token = match extract_access(header) {
        None => {
            return Err(AuthError::Unauthorized);
        },
        Some(t) => t,
    };
    match decode_token(token.as_str(), cfg.user.user_secret.as_str(), now) {
        Ok(c) => {
            if c.role == Role::UserAndCompany || c.role == Role::Admin {
                return Ok(Identity { subject: c.subject, role: c.role });
            }
            admin_token_check(token.as_str(), cfg, now)
        },
        Err(_) => admin_token_check(token.as_str(), cfg, now),
    }
}

/// Authorize a request against the admin tier.
pub fn admin_authorization(cookie_header: Option<&str>, cfg: &AuthConfig, now: u64) -> (r: Result<
    Identity,
    AuthError,
>)
    ensures
        match r {
            Ok(id) => admin_decision(opt_str_chars(cookie_header), cfg@, now) == Ok::<
                IdentityView,
                AuthError,
            >(id@),
            Err(e) => admin_decision(opt_str_chars(cookie_header), cfg@, now) == Err::<
                IdentityView,
                AuthError,
            >(e),
        },
{
    let header = match cookie_header {
        None => {
            return Err(AuthError::Unauthorized);
        },
        Some(h) => h,
    };
    let token = match extract_access(header) {
        None => {
            return Err(AuthError::Unauthorized);
        },
        Some(t) => t,
    };
    admin_token_check(token.as_str(), cfg, now)
}

fn admin_token_check(token: &str, cfg: &AuthConfig, now: u64) -> (r: Result<Identity, AuthError>)
    ensures
        match r {
            Ok(id) => admin_token_decision(token@, cfg@, now) == Ok::<IdentityView, AuthError>(
                id@,
            ),
            Err(e) => admin_token_decision(token@, cfg@, now) == Err::<IdentityView, AuthError>(
                e,
            ),
        },
{
    match decode_token(token, cfg.admin.admin_secret.as_str(), now) {
        Ok(c) => {
            if c.role == Role::Admin {
                Ok(Identity { subject: c.subject, role: c.role })
            } else {
                Err(AuthError::Unauthorized)
            }
        },
        Err(_) => Err(AuthError::Unauthorized),
    }
}

/// The admin tier rejects any token whose claims do not carry the `Admin`
/// role — even one whose signature is valid under whatever secret signed
/// it, the user access secret included.
pub proof fn lemma_admin_tier_needs_admin_role(
    header: Seq<char>,
    c: ClaimsView,
    signing: Seq<char>,
    cfg: AuthConfigView,
    now: u64,
)
    requires
        c.subject_ok(),
        !(c.role is Admin),
        cookie_lookup(header, "act"@) == Some(signed_chars(c, signing)),
    ensures
        admin_decision(Some(header), cfg, now) == Err::<IdentityView, AuthError>(
            AuthError::Unauthorized,
        ),
{
    lemma_parse_of_shaped(c, signature_tag(signing, payload_chars(c)));
}

/// A request whose access token has reached its expiry is rejected by both
/// tiers, whatever secret signed the token.
pub proof fn lemma_expired_token_rejected(
    header: Seq<char>,
    c: ClaimsView,
    signing: Seq<char>,
    cfg: AuthConfigView,
    now: u64,
)
    requires
        c.subject_ok(),
        now >= c.expires_at,
        cookie_lookup(header, "act"@) == Some(signed_chars(c, signing)),
    ensures
        user_decision(Some(header), cfg, now) == Err::<IdentityView, AuthError>(
            AuthError::Unauthorized,
        ),
        admin_decision(Some(header), cfg, now) == Err::<IdentityView, AuthError>(
            AuthError::Unauthorized,
        ),
{
    lemma_parse_of_shaped(c, signature_tag(signing, payload_chars(c)));
}

} // verus!
