//! The claims that a session token carries, and when a session ends.

use vstd::prelude::*;
use crate::role::Role;

verus! {

/// How long a session token stays valid after it was issued, in seconds.
pub const TOKEN_LIFETIME: usize = 3600;

/// What a session token says about its holder.
#[derive(Clone, Copy, Debug)]
pub struct Claims {
    pub user_id: i32,
    pub role: Role,
    /// The moment, in seconds since the Unix epoch, after which the token is
    /// no longer accepted.
    pub exp: usize,
}

/// `chrono::Utc::now().timestamp()`: the current time in whole seconds since
/// the Unix epoch. Which moment it gives depends on the clock alone, so only
/// this is stated: it is not negative, since `Utc::now` panics on a system
/// clock set before the Unix epoch rather than return such a time. That
/// panic is left unsaid: no argument decides it.
#[verifier::external_body]
pub(crate) fn unix_now() -> (seconds: i64)
    ensures
        seconds >= 0,
{
    chrono::Utc::now().timestamp()
}

/// Whether `seconds` is a reading that the clock gave: a value that a call of
/// `unix_now` returned.
pub closed spec fn clock_reading(seconds: i64) -> bool {
    call_ensures(unix_now, (), seconds)
}

/// A value that a call of `unix_now` returned is a clock reading.
pub(crate) proof fn lemma_clock_reading_from_call(seconds: i64)
    requires
        call_ensures(unix_now, (), seconds),
    ensures
        clock_reading(seconds),
{
}

/// A clock reading is not negative.
pub proof fn lemma_clock_reading_not_negative(seconds: i64)
    requires
        clock_reading(seconds),
    ensures
        seconds >= 0,
{
}

impl Claims {
    /// The claims of a session for `user_id` with `role` that starts at
    /// `issued_at` and ends `TOKEN_LIFETIME` seconds later.
    pub fn expiring(user_id: i32, role: Role, issued_at: usize) -> (claims: Claims)
        requires
            issued_at + TOKEN_LIFETIME <= usize::MAX,
        ensures
            claims.user_id == user_id,
            claims.role == role,
            claims.exp == issued_at + TOKEN_LIFETIME,
    {
        Claims { user_id, role, exp: issued_at + TOKEN_LIFETIME }
    }
}

/// The start of a session read from a clock value: the seconds since the
/// Unix epoch, taken as an unsigned count.
pub open spec fn session_start(clock: i64) -> usize {
    clock as usize
}

/// The claims of a session for `user_id` with `role` that starts at the clock
/// value `clock`, or `None` where the end of that session would not fit in
/// `usize`.
pub fn claims_at(user_id: i32, role: Role, clock: i64) -> (claims: Option<Claims>)
    ensures
        session_start(clock) + TOKEN_LIFETIME <= usize::MAX ==> claims == Some(
            Claims { user_id, role, exp: (session_start(clock) + TOKEN_LIFETIME) as usize },
        ),
        session_start(clock) + TOKEN_LIFETIME > usize::MAX ==> claims is None,
{
    let start = clock as usize;
    if start <= usize::MAX - TOKEN_LIFETIME {
        Some(Claims::expiring(user_id, role, start))
    } else {
        None
    }
}

/// The claims of a session for `user_id` with `role` that starts now: at a
/// reading of the clock taken during the call.
pub fn issue_claims(user_id: i32, role: Role) -> (claims: Option<Claims>)
    ensures
        claims matches Some(c) ==> c.user_id == user_id && c.role == role && c.exp
            >= TOKEN_LIFETIME,
        i64::MAX + TOKEN_LIFETIME <= usize::MAX ==> claims is Some,
        exists|clock: i64|
            #![trigger clock_reading(clock)]
            clock_reading(clock) && (session_start(clock) + TOKEN_LIFETIME <= usize::MAX ==> claims
                == Some(
                Claims {
                    user_id,
                    role,
                    exp: (session_start(clock) + TOKEN_LIFETIME) as usize,
                },
            )) && (session_start(clock) + TOKEN_LIFETIME > usize::MAX ==> claims is None),
{
    let now = unix_now();
    assert(clock_reading(now));
    claims_at(user_id, role, now)
}

} // verus!
