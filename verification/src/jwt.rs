//! Signing session tokens: HS256 JSON web tokens that carry a user's claims.

use vstd::prelude::*;
use jsonwebtoken::{decode, encode, Algorithm, DecodingKey, EncodingKey, Header, Validation};
use serde_json::Value;
use crate::claims::{Claims, TOKEN_LIFETIME, clock_reading, issue_claims, lemma_clock_reading_from_call, session_start, unix_now};
use crate::role::{Role, role_name, role_named};

verus! {

/// The token that `jsonwebtoken::encode` makes, under an HS256 header keyed
/// with `secret`, for the claims object `{"user_id", "role", "exp"}`.
pub uninterp spec fn hs256_session_token(
    user_id: i32,
    role: Seq<char>,
    exp: usize,
    secret: Seq<char>,
) -> Seq<char>;

/// `jsonwebtoken::encode(&Header::new(Algorithm::HS256), &claims,
/// &EncodingKey::from_secret(secret))`, where `claims` is the JSON object with
/// the members `user_id`, `role` and `exp`. The token is named, not stated.
/// Stated: it is always made, since `encode` fails only for a key of another
/// algorithm family than the header's (an HMAC secret and HS256 agree), for a
/// payload that does not serialise (a JSON object always does), or in signing,
/// which cannot fail for HMAC. The members are written in the order
/// `user_id`, `role`, `exp` (`serde_json`'s map keeps insertion order). Also
/// stated: `decode_hs256` reads the token back with the same secret as
/// exactly these three values, since `decode` checks the HS256 signature that
/// `encode` made with that secret, finds the `exp` member that it requires
/// and no `aud` member, and the members hold an integer, a string and an
/// unsigned integer.
#[verifier::external_body]
fn encode_hs256(user_id: i32, role: &str, exp: usize, secret: &str) -> (token: Option<String>)
    ensures
        token is Some,
        token matches Some(t) ==> t@ == hs256_session_token(user_id, role@, exp, secret@),
        token matches Some(t) ==> hs256_token_claims(t@, secret@) == Some(
            (user_id as i64, role@, exp as u64),
        ),
{
    let mut claims = serde_json::Map::new();
    claims.insert("user_id".to_string(), Value::from(user_id));
    claims.insert("role".to_string(), Value::from(role));
    claims.insert("exp".to_string(), Value::from(exp));
    let key = EncodingKey::from_secret(secret.as_bytes());
    encode(&Header::new(Algorithm::HS256), &claims, &key).ok()
}

/// What `decode_hs256` reads from `token` with `secret`: the members
/// `user_id`, `role` and `exp` of a token whose HS256 signature checks out
/// under `secret`, or `None`.
pub uninterp spec fn hs256_token_claims(token: Seq<char>, secret: Seq<char>) -> Option<
    (i64, Seq<char>, u64),
>;

/// `jsonwebtoken::decode` of `token` into a JSON object, with
/// `DecodingKey::from_secret(secret)` and `Validation::new(Algorithm::HS256)`
/// with `validate_exp` off (expiry is judged by `claims_at_time`), then the
/// members `user_id` (an integer), `role` (a string) and `exp` (an unsigned
/// integer) read out of it; `None` for a token that does not decode or lacks
/// one of them. The result is named, not stated: it rests on base64, JSON and
/// HMAC-SHA256.
#[verifier::external_body]
fn decode_hs256(token: &str, secret: &str) -> (claims: Option<(i64, String, u64)>)
    ensures
        claims matches Some(c) ==> hs256_token_claims(token@, secret@) == Some((c.0, c.1@, c.2)),
        claims is None ==> hs256_token_claims(token@, secret@) is None,
{
    let mut validation = Validation::new(Algorithm::HS256);
    validation.validate_exp = false;
    let key = DecodingKey::from_secret(secret.as_bytes());
    match decode::<serde_json::Map<String, Value>>(token, &key, &validation) {
        Ok(data) => match (data.claims.get("user_id"), data.claims.get("role"), data.claims.get("exp")) {
            (Some(Value::Number(id)), Some(Value::String(role)), Some(Value::Number(exp))) => {
                Some((id.as_i64()?, role.clone(), exp.as_u64()?))
            },
            _ => None,
        },
        Err(_) => None,
    }
}

/// How long after its `exp` a session token is still accepted, in seconds
/// (the leeway of `jsonwebtoken::Validation`).
pub const EXPIRY_LEEWAY: u64 = 60;

/// The claims that `token`, signed with `secret`, grants at the moment `now`:
/// those it carries, when its user id fits `i32`, its role is one of the
/// three role names, its expiry fits `usize`, and `now` is no later than
/// `EXPIRY_LEEWAY` seconds after its expiry; otherwise none.
pub open spec fn claims_at_time(token: Seq<char>, secret: Seq<char>, now: i64) -> Option<Claims> {
    match hs256_token_claims(token, secret) {
        Some((id, name, exp)) => if i32::MIN <= id <= i32::MAX && role_named(name) is Some && exp
            <= usize::MAX && now <= exp + EXPIRY_LEEWAY {
            Some(Claims { user_id: id as i32, role: role_named(name)->0, exp: exp as usize })
        } else {
            None
        },
        None => None,
    }
}

/// Whether `token`, signed with `secret`, carries exactly `claims`.
pub open spec fn carries_claims(token: Seq<char>, secret: Seq<char>, claims: Claims) -> bool {
    hs256_token_claims(token, secret) == Some(
        (claims.user_id as i64, role_name(claims.role), claims.exp as u64),
    )
}

/// A token that carries `claims` grants them until `EXPIRY_LEEWAY` seconds
/// after their expiry, and grants nothing afterwards.
pub proof fn lemma_token_grants_its_claims(token: Seq<char>, secret: Seq<char>, claims: Claims, now: i64)
    requires
        carries_claims(token, secret, claims),
    ensures
        now <= claims.exp + EXPIRY_LEEWAY ==> claims_at_time(token, secret, now) == Some(claims),
        now > claims.exp + EXPIRY_LEEWAY ==> claims_at_time(token, secret, now) is None,
{
    crate::role::lemma_role_name_round_trip(claims.role);
}

/// The claims that a session cookie's token, if any, grants at `now`.
pub open spec fn cookie_claims(token: Option<&str>, secret: Seq<char>, now: i64) -> Option<Claims> {
    match token {
        Some(t) => claims_at_time(t@, secret, now),
        None => None,
    }
}

/// The claims that the session cookie's token grants at the moment `now`:
/// none without a token.
pub fn session_claims_at(token: Option<&str>, secret: &str, now: i64) -> (claims: Option<Claims>)
    ensures
        claims == cookie_claims(token, secret@, now),
{
    let token = match token {
        Some(t) => t,
        None => return None,
    };
    let (id, name, exp) = match decode_hs256(token, secret) {
        Some(read) => read,
        None => return None,
    };
    if id < i32::MIN as i64 || id > i32::MAX as i64 {
        return None;
    }
    let role = match Role::from_name(name.as_str()) {
        Some(role) => role,
        None => return None,
    };
    if exp > usize::MAX as u64 {
        return None;
    }
    if (now as i128) > (exp as i128) + (EXPIRY_LEEWAY as i128) {
        return None;
    }
    Some(Claims { user_id: id as i32, role, exp: exp as usize })
}

/// The claims that the session cookie's token grants now, at a reading of
/// the clock taken during the call: the request is signed in with them.
pub fn session_claims(token: Option<&str>, secret: &str) -> (claims: Option<Claims>)
    ensures
        exists|now: i64| now >= 0 && claims == #[trigger] cookie_claims(token, secret@, now),
        exists|now: i64|
            #![trigger clock_reading(now)]
            clock_reading(now) && claims == cookie_claims(token, secret@, now),
        claims matches Some(c) ==> token matches Some(t) && carries_claims(t@, secret@, c) && exists|
            now: i64,
        | #![trigger clock_reading(now)] clock_reading(now) && now <= c.exp + EXPIRY_LEEWAY,
{
    let now = unix_now();
    proof {
        lemma_clock_reading_from_call(now);
    }
    let claims = session_claims_at(token, secret, now);
    proof {
        if let Some(t) = token {
            lemma_granted_claims_are_carried(t@, secret@, now);
        }
    }
    claims
}

/// The claims that a token grants at any moment are exactly the claims it
/// carries, and that moment is no later than `EXPIRY_LEEWAY` seconds after
/// their expiry.
pub proof fn lemma_granted_claims_are_carried(token: Seq<char>, secret: Seq<char>, now: i64)
    ensures
        claims_at_time(token, secret, now) matches Some(c) ==> carries_claims(token, secret, c)
            && now <= c.exp + EXPIRY_LEEWAY,
{
    if let Some(c) = claims_at_time(token, secret, now) {
        let (id, name, exp) = hs256_token_claims(token, secret)->0;
        crate::role::lemma_role_name_round_trip(c.role);
        reveal_strlit("Admin");
        reveal_strlit("Mod");
        reveal_strlit("User");
        assert(role_name(c.role) == name);
    }
}

/// A token whose carried expiry lies more than `EXPIRY_LEEWAY` seconds before
/// `now` grants nothing at `now`, whatever else it carries.
pub proof fn lemma_expired_token_grants_nothing(token: Seq<char>, secret: Seq<char>, now: i64)
    requires
        hs256_token_claims(token, secret) matches Some(read) && now > read.2 + EXPIRY_LEEWAY,
    ensures
        claims_at_time(token, secret, now) is None,
{
}

/// Whether `token` is, when there is one, the session token of a user with
/// `user_id` and `role`, signed with `secret`, that expires no earlier than
/// `TOKEN_LIFETIME` seconds after the Unix epoch, and carries exactly these
/// claims with an expiry `TOKEN_LIFETIME` seconds after a reading of the
/// clock.
pub open spec fn session_token_of(
    token: Option<String>,
    user_id: i32,
    role: Role,
    secret: Seq<char>,
) -> bool {
    &&& token matches Some(t) ==> exists|exp: usize|
        exp >= TOKEN_LIFETIME && #[trigger] hs256_session_token(user_id, role_name(role), exp, secret)
            == t@ && carries_claims(t@, secret, Claims { user_id, role, exp })
    &&& token matches Some(t) ==> exists|clock: i64|
        #![trigger clock_reading(clock)]
        clock_reading(clock) && session_start(clock) + TOKEN_LIFETIME <= usize::MAX
            && carries_claims(
            t@,
            secret,
            Claims { user_id, role, exp: (session_start(clock) + TOKEN_LIFETIME) as usize },
        )
}

/// The signed session token that carries `claims`.
pub fn session_token(claims: Claims, secret: &str) -> (token: Option<String>)
    ensures
        token is Some,
        token matches Some(t) ==> t@ == hs256_session_token(
            claims.user_id,
            role_name(claims.role),
            claims.exp,
            secret@,
        ),
        token matches Some(t) ==> carries_claims(t@, secret@, claims),
{
    let role = claims.role.name();
    encode_hs256(claims.user_id, role.as_str(), claims.exp, secret)
}

/// The session token of a user with `user_id` and `role`, signed with
/// `secret`, for a session that starts now and lasts `TOKEN_LIFETIME` seconds.
/// There is none only where the end of the session does not fit in `usize`.
pub fn create_jwt(user_id: i32, role: &Role, secret: &String) -> (token: Option<String>)
    ensures
        session_token_of(token, user_id, *role, secret@),
        i64::MAX + TOKEN_LIFETIME <= usize::MAX ==> token is Some,
{
    match issue_claims(user_id, *role) {
        Some(claims) => {
            let token = session_token(claims, secret.as_str());
            proof {
                assert(hs256_session_token(user_id, role_name(*role), claims.exp, secret@)
                    == token->0@);
            }
            token
        },
        None => None,
    }
}

} // verus!
