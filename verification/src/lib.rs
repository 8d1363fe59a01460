//! Authentication and authorization core for a web service: a signed-token
//! codec with expiry claims, dual-tier token issuance (user and admin secret
//! pairs), cookie-based session transport, authorization middleware decisions,
//! and the login/refresh workflow.

pub mod ai;
pub mod config;
pub mod cookie;
pub mod issuer;
pub mod mac;
pub mod middleware;
pub mod password;
pub mod text;
pub mod token;
pub mod user;
pub mod workflow;

use vstd::prelude::*;

verus! {

/// A closed set of roles carried inside a token's claims.
#[derive(Debug, Clone, Copy, PartialEq, Eq, Structural)]
pub enum Role {
    User,
    UserAndCompany,
    Admin,
}

impl Role {
    /// Admin tokens are signed with the admin secret pair; all other roles
    /// belong to the user tier.
    pub open spec fn is_admin_tier(self) -> bool {
        self is Admin
    }
}

/// A credential or token failure, as surfaced to the client. Internal
/// distinctions (which secret failed, and why) are never exposed.
#[derive(Debug, Clone, Copy, PartialEq, Eq, Structural)]
pub enum AuthError {
    /// Unknown username, wrong password, or a tier mismatch at login —
    /// never distinguished from each other externally.
    InvalidCredentials,
    /// A missing, forged or expired token on a protected request.
    Unauthorized,
}

impl AuthError {
    /// Every authentication failure surfaces as HTTP 401.
    pub fn status_code(&self) -> (c: u16)
        ensures
            c == 401,
    {
        401
    }
}

/// The view of an optional header value.
pub open spec fn opt_str_chars(s: Option<&str>) -> Option<Seq<char>> {
    match s {
        None => None,
        Some(x) => Some(x@),
    }
}

} // verus!
