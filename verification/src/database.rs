//! The user records that the database holds, and how a new one is made.

use vstd::prelude::*;
use vstd::string::*;
use crate::config::Vault;
use crate::password::{argon2_accepts, hashable_password, hash_with_fresh_salt, phc_well_formed};
use crate::role::Role;

verus! {

/// A stored user. `created_at` counts seconds since the Unix epoch.
#[derive(Debug)]
pub struct User {
    pub id: i32,
    pub username: String,
    pub password_hash: String,
    pub role: Role,
    pub created_at: i64,
}

/// A user record about to be written: a new user, or new credentials for an
/// existing user name. The time of creation is set as it is written.
#[derive(Debug)]
pub struct NewUser {
    pub username: String,
    pub password_hash: String,
    pub role: Role,
}

/// Whether `record` stores `username` with `role` and a PHC string that
/// `password` matches.
pub open spec fn records_credentials(
    record: NewUser,
    username: Seq<char>,
    password: Seq<char>,
    role: Role,
) -> bool {
    &&& record.username@ == username
    &&& record.role == role
    &&& phc_well_formed(record.password_hash@)
    &&& argon2_accepts(password, record.password_hash@)
}

/// The record that stores `username` with `role`, its password hashed with a
/// fresh salt. Only the hash of the password is kept.
pub fn new_user_record(username: &str, password: &str, role: Role) -> (record: NewUser)
    requires
        hashable_password(password@),
    ensures
        records_credentials(record, username@, password@, role),
{
    let password_hash = match hash_with_fresh_salt(password) {
        Some(phc) => phc,
        None => {
            proof {
                assert(false);
            }
            String::new()
        },
    };
    NewUser {
        username: String::from_str(username),
        password_hash,
        role,
    }
}

/// The administrator that the settings name, written at start-up.
pub fn default_user_record(settings: &Vault) -> (record: NewUser)
    requires
        hashable_password(settings.password@),
    ensures
        records_credentials(record, settings.username@, settings.password@, Role::Admin),
{
    new_user_record(settings.username.as_str(), settings.password.as_str(), Role::Admin)
}

} // verus!
