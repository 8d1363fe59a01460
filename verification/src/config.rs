//! Configuration carried by the service: application, server, database and
//! token-signing settings, and the validated form the authentication core
//! works with. Reading the environment happens outside; validation of the
//! values is verified here.

use vstd::prelude::*;
use crate::text::{all_digits, dec_value, parse_dec_u64};

verus! {

#[derive(Debug)]
pub struct Config {
    pub app: Application,
    pub server: Server,
    pub database: Database,
    pub jwt: Jwt,
    pub services: Services,
}

#[derive(Debug)]
pub struct Application {
    pub env: String,
    pub name: String,
    pub frontend_url: String,
    pub backend_url: String,
}

#[derive(Debug)]
pub struct Server {
    pub port: u16,
    pub body_limit: u64,
    pub timeout: u64,
}

#[derive(Debug)]
pub struct Database {
    pub url: String,
}

/// Token-signing settings as loaded: secrets for both tiers and the two
/// TTLs as unparsed strings.
#[derive(Debug)]
pub struct Jwt {
    pub user: JwtSecret,
    pub admin: JwtAdminSecret,
    pub access_token_expiration: String,
    pub refresh_token_expiration: String,
}

/// The user tier's secret pair: one secret for access tokens, one for
/// refresh tokens.
#[derive(Debug)]
pub struct JwtSecret {
    pub user_secret: String,
    pub user_refresh_secret: String,
}

/// The admin tier's secret pair.
#[derive(Debug)]
pub struct JwtAdminSecret {
    pub admin_secret: String,
    pub admin_refresh_secret: String,
}

#[derive(Debug)]
pub struct Services {
    pub ai_service_url: String,
}

#[verifier::ext_equal]
pub struct JwtSecretView {
    pub user_secret: Seq<char>,
    pub user_refresh_secret: Seq<char>,
}

impl View for JwtSecret {
    type V = JwtSecretView;

    open spec fn view(&self) -> JwtSecretView {
        JwtSecretView {
            user_secret: self.user_secret@,
            user_refresh_secret: self.user_refresh_secret@,
        }
    }
}

#[verifier::ext_equal]
pub struct JwtAdminSecretView {
    pub admin_secret: Seq<char>,
    pub admin_refresh_secret: Seq<char>,
}

impl View for JwtAdminSecret {
    type V = JwtAdminSecretView;

    open spec fn view(&self) -> JwtAdminSecretView {
        JwtAdminSecretView {
            admin_secret: self.admin_secret@,
            admin_refresh_secret: self.admin_refresh_secret@,
        }
    }
}

/// The deployment stage; `Secure` cookie attributes are set only in
/// production.
#[derive(Debug, Clone, Copy, PartialEq, Eq, Structural)]
pub enum Stage {
    Local,
    Production,
}

/// "Production" selects the production stage; anything else is local.
pub open spec fn stage_of_tag(s: Seq<char>) -> Stage {
    if s == "Production"@ {
        Stage::Production
    } else {
        Stage::Local
    }
}

pub fn stage_from_tag(s: &str) -> (r: Stage)
    ensures
        r == stage_of_tag(s@),
{
    let owned = s.to_owned();
    if owned.eq(&String::from_str("Production")) {
        Stage::Production
    } else {
        Stage::Local
    }
}

/// Validated authentication settings: both secret pairs, the two TTLs in
/// seconds, and whether the deployment is production.
#[derive(Debug)]
pub struct AuthConfig {
    pub user: JwtSecret,
    pub admin: JwtAdminSecret,
    pub access_ttl_secs: u64,
    pub refresh_ttl_secs: u64,
    pub production: bool,
}

#[verifier::ext_equal]
pub struct AuthConfigView {
    pub user: JwtSecretView,
    pub admin: JwtAdminSecretView,
    pub access_ttl_secs: u64,
    pub refresh_ttl_secs: u64,
    pub production: bool,
}

impl View for AuthConfig {
    type V = AuthConfigView;

    open spec fn view(&self) -> AuthConfigView {
        AuthConfigView {
            user: self.user@,
            admin: self.admin@,
            access_ttl_secs: self.access_ttl_secs,
            refresh_ttl_secs: self.refresh_ttl_secs,
            production: self.production,
        }
    }
}

impl AuthConfigView {
    /// No secret may be empty, and both TTLs are positive.
    pub open spec fn wf(self) -> bool {
        &&& self.user.user_secret.len() > 0
        &&& self.user.user_refresh_secret.len() > 0
        &&& self.admin.admin_secret.len() > 0
        &&& self.admin.admin_refresh_secret.len() > 0
        &&& self.access_ttl_secs > 0
        &&& self.refresh_ttl_secs > 0
    }
}

/// A fatal configuration fault: the process must not start with it.
#[derive(Debug, Clone, Copy, PartialEq, Eq, Structural)]
pub enum ConfigError {
    /// A signing secret is absent. Secrets are never defaulted.
    MissingSecret,
    /// A TTL is not a positive number of seconds.
    InvalidTtl,
}

/// A TTL string is acceptable when it is a decimal number of seconds,
/// positive and within `u64`.
pub open spec fn ttl_ok(s: Seq<char>) -> bool {
    s.len() > 0 && all_digits(s) && dec_value(s) <= u64::MAX && dec_value(s) > 0
}

pub open spec fn jwt_secrets_present(j: &Jwt) -> bool {
    &&& j.user.user_secret@.len() > 0
    &&& j.user.user_refresh_secret@.len() > 0
    &&& j.admin.admin_secret@.len() > 0
    &&& j.admin.admin_refresh_secret@.len() > 0
}

/// Validate the loaded token-signing settings: every secret present and
/// both TTLs positive decimals, or the exact fault.
pub fn build_auth_config(jwt: &Jwt, stage: Stage) -> (r: Result<AuthConfig, ConfigError>)
    ensures
        match r {
            Ok(c) => {
                &&& jwt_secrets_present(jwt)
                &&& ttl_ok(jwt.access_token_expiration@)
                &&& ttl_ok(jwt.refresh_token_expiration@)
                &&& c@.user =~= jwt.user@
                &&& c@.admin =~= jwt.admin@
                &&& c@.access_ttl_secs == dec_value(jwt.access_token_expiration@)
                &&& c@.refresh_ttl_secs == dec_value(jwt.refresh_token_expiration@)
                &&& c@.production == (stage == Stage::Production)
                &&& c@.wf()
            },
            Err(ConfigError::MissingSecret) => !jwt_secrets_present(jwt),
            Err(ConfigError::InvalidTtl) => jwt_secrets_present(jwt) && !(ttl_ok(
                jwt.access_token_expiration@,
            ) && ttl_ok(jwt.refresh_token_expiration@)),
        },
{
    if jwt.user.user_secret.as_str().is_empty() || jwt.user.user_refresh_secret.as_str().is_empty()
        || jwt.admin.admin_secret.as_str().is_empty()
        || jwt.admin.admin_refresh_secret.as_str().is_empty() {
        return Err(ConfigError::MissingSecret);
    }
    let access_ttl = match parse_dec_u64(jwt.access_token_expiration.as_str()) {
        None => {
            return Err(ConfigError::InvalidTtl);
        },
        Some(v) => v,
    };
    let refresh_ttl = match parse_dec_u64(jwt.refresh_token_expiration.as_str()) {
        None => {
            return Err(ConfigError::InvalidTtl);
        },
        Some(v) => v,
    };
    if access_ttl == 0 || refresh_ttl == 0 {
        return Err(ConfigError::InvalidTtl);
    }
    Ok(AuthConfig {
        user: JwtSecret {
            user_secret: jwt.user.user_secret.clone(),
            user_refresh_secret: jwt.user.user_refresh_secret.clone(),
        },
        admin: JwtAdminSecret {
            admin_secret: jwt.admin.admin_secret.clone(),
            admin_refresh_secret: jwt.admin.admin_refresh_secret.clone(),
        },
        access_ttl_secs: access_ttl,
        refresh_ttl_secs: refresh_ttl,
        production: stage == Stage::Production,
    })
}

} // verus!
