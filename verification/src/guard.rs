//! Who may pass the guards in front of the editing and administration routes.

use vstd::prelude::*;
use crate::claims::Claims;
use crate::role::Role;

verus! {

/// A request is signed in when it carries the claims of a valid session token.
pub open spec fn signed_in(claims: Option<&Claims>) -> bool {
    claims is Some
}

/// A request may use the administration routes when it carries the claims of
/// an administrator.
pub open spec fn admin_signed_in(claims: Option<&Claims>) -> bool {
    claims matches Some(c) && c.role == Role::Admin
}

/// The guard of the editing routes: the request must carry session claims,
/// whatever their role.
pub fn role_guard(claims: Option<&Claims>) -> (allowed: bool)
    ensures
        allowed == signed_in(claims),
        allowed <==> claims is Some,
{
    match claims {
        Some(_) => true,
        None => false,
    }
}

/// The guard of the administration routes: the request must carry the claims
/// of an administrator.
pub fn admin_guard(claims: Option<&Claims>) -> (allowed: bool)
    ensures
        allowed == admin_signed_in(claims),
        claims is None ==> !allowed,
        claims matches Some(c) ==> (allowed <==> c.role == Role::Admin),
{
    match claims {
        Some(c) => c.role.is_admin(),
        None => false,
    }
}

/// The guard in front of the administration scope: the same test as
/// `admin_guard`, that the request carries the claims of an administrator.
pub fn auth_guard(claims: Option<&Claims>) -> (allowed: bool)
    ensures
        allowed == admin_signed_in(claims),
        claims is None ==> !allowed,
        claims matches Some(c) ==> (allowed <==> c.role == Role::Admin),
{
    match claims {
        Some(c) => c.role.is_admin(),
        None => false,
    }
}

/// Every request that the administration guard lets through is also let
/// through by the editing guard.
pub proof fn lemma_admin_guard_implies_role_guard(claims: Option<&Claims>)
    ensures
        admin_signed_in(claims) ==> signed_in(claims),
{
}

/// The administration guard looks at the role alone: the claims of an
/// administrator pass whatever their user id and expiry, and the claims of a
/// moderator or a user never pass; the editing guard passes any claims.
pub proof fn lemma_guards_decide_by_role(claims: Claims, other: Claims)
    ensures
        admin_signed_in(Some(&claims)) <==> claims.role == Role::Admin,
        claims.role == other.role ==> admin_signed_in(Some(&claims)) == admin_signed_in(
            Some(&other),
        ),
        signed_in(Some(&claims)),
        !signed_in(None),
        !admin_signed_in(None),
{
}

} // verus!
