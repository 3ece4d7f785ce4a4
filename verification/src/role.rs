//! The access levels that a user of the press server can hold.

use vstd::prelude::*;
use vstd::string::*;

verus! {

/// The role of a user: administrators manage users, moderators and users may
/// edit content once signed in.
#[derive(Clone, Copy, Debug, PartialEq, Eq, Structural)]
pub enum Role {
    Admin,
    Mod,
    User,
}

/// The name under which a role travels in requests, replies and tokens.
pub open spec fn role_name(role: Role) -> Seq<char> {
    match role {
        Role::Admin => "Admin"@,
        Role::Mod => "Mod"@,
        Role::User => "User"@,
    }
}

/// The role that a name denotes: the request names (`Admin`, `Mod`, `User`)
/// and the lower-case names that the database stores; every other name gives
/// the least privileged role, `User`.
pub open spec fn role_from_name(name: Seq<char>) -> Role {
    if name == "Admin"@ || name == "admin"@ {
        Role::Admin
    } else if name == "Mod"@ || name == "mod"@ {
        Role::Mod
    } else {
        Role::User
    }
}

/// The role that a session token names: exactly one of the names `Admin`,
/// `Mod` and `User`; any other name names no role.
pub open spec fn role_named(name: Seq<char>) -> Option<Role> {
    if name == "Admin"@ {
        Some(Role::Admin)
    } else if name == "Mod"@ {
        Some(Role::Mod)
    } else if name == "User"@ {
        Some(Role::User)
    } else {
        None
    }
}

impl Role {
    /// Reads the role that a session token names, if it names one.
    pub fn from_name(name: &str) -> (role: Option<Role>)
        ensures
            role == role_named(name@),
    {
        let given = String::from_str(name);
        if given == String::from_str("Admin") {
            Some(Role::Admin)
        } else if given == String::from_str("Mod") {
            Some(Role::Mod)
        } else if given == String::from_str("User") {
            Some(Role::User)
        } else {
            None
        }
    }

    /// Reads a role from its name; an unknown name reads as `User`.
    pub fn from_str(name: &str) -> (role: Role)
        ensures
            role == role_from_name(name@),
    {
        let given = String::from_str(name);
        if given == String::from_str("Admin") || given == String::from_str("admin") {
            Role::Admin
        } else if given == String::from_str("Mod") || given == String::from_str("mod") {
            Role::Mod
        } else {
            Role::User
        }
    }

    /// The name of the role, as it is shown to clients.
    pub fn name(&self) -> (name: String)
        ensures
            name@ == role_name(*self),
    {
        match self {
            Role::Admin => String::from_str("Admin"),
            Role::Mod => String::from_str("Mod"),
            Role::User => String::from_str("User"),
        }
    }

    /// Whether the role is the administrator role.
    pub fn is_admin(&self) -> (admin: bool)
        ensures
            admin <==> *self == Role::Admin,
    {
        match self {
            Role::Admin => true,
            _ => false,
        }
    }
}

/// Reading back the name of a role gives the same role.
pub proof fn lemma_role_name_round_trip(role: Role)
    ensures
        role_from_name(role_name(role)) == role,
        role_named(role_name(role)) == Some(role),
{
    reveal_strlit("Admin");
    reveal_strlit("admin");
    reveal_strlit("Mod");
    reveal_strlit("mod");
    reveal_strlit("User");
    assert("Admin"@.len() == 5 && "admin"@.len() == 5);
    assert("Mod"@.len() == 3 && "mod"@.len() == 3);
    assert("User"@.len() == 4);
}

} // verus!
