//! User records as the authentication core sees them: identifiers are
//! plain strings (UUIDs in practice) and timestamps are seconds since the
//! epoch, so the logic over them can be verified; the storage layer
//! converts at its own boundary.

use vstd::prelude::*;
use crate::Role;
use crate::text::no_char;
use crate::password::{hash_password, password_matches};

verus! {

/// A stored credential record.
#[derive(Debug)]
pub struct UserEntity {
    /// The subject identifier, a UUID string.
    pub id: String,
    pub username: String,
    pub password_hash: String,
    pub display_name: Option<String>,
    pub role: Role,
    /// Seconds since the epoch.
    pub created_at: i64,
    pub updated_at: i64,
    pub first_name: String,
    pub last_name: String,
}

impl UserEntity {
    /// The identifier can stand as a token subject: nonempty and free of
    /// dots, as every UUID string is.
    pub open spec fn id_ok(&self) -> bool {
        self.id@.len() > 0 && no_char(self.id@, '.')
    }
}

/// The row inserted when a user registers.
#[derive(Debug)]
pub struct RegisterUserEntity {
    pub username: String,
    pub password_hash: String,
    pub first_name: String,
    pub last_name: String,
    pub created_at: i64,
    pub updated_at: i64,
}

/// The registration request as received.
#[derive(Debug)]
pub struct RegisterUserModel {
    pub username: String,
    pub firstname: String,
    pub lastname: String,
    pub password: String,
}

impl RegisterUserModel {
    /// The row to insert, stamped `now`; the `password` field is copied
    /// into `password_hash` as-is, so it must already be a hash.
    pub fn to_entity(&self, now: i64) -> (r: RegisterUserEntity)
        ensures
            r.username@ == self.username@,
            r.first_name@ == self.firstname@,
            r.last_name@ == self.lastname@,
            r.password_hash@ == self.password@,
            r.created_at == now,
            r.updated_at == now,
    {
        RegisterUserEntity {
            username: self.username.clone(),
            first_name: self.firstname.clone(),
            last_name: self.lastname.clone(),
            password_hash: self.password.clone(),
            created_at: now,
            updated_at: now,
        }
    }
}

/// Hash the model's password and build the row to insert, stamped `now`.
/// `None` only when the outside hash scheme fails; any row returned carries
/// a hash that verifies against the submitted password.
pub fn prepare_registration(model: &RegisterUserModel, now: i64) -> (r: Option<
    RegisterUserEntity,
>)
    ensures
        r matches Some(e) ==> {
            &&& e.username@ == model.username@
            &&& e.first_name@ == model.firstname@
            &&& e.last_name@ == model.lastname@
            &&& password_matches(model.password@, e.password_hash@)
            &&& e.created_at == now
            &&& e.updated_at == now
        },
{
    match hash_password(model.password.as_str()) {
        None => None,
        Some(h) => {
            let hashed = RegisterUserModel {
                username: model.username.clone(),
                firstname: model.firstname.clone(),
                lastname: model.lastname.clone(),
                password: h,
            };
            Some(hashed.to_entity(now))
        },
    }
}

} // verus!
