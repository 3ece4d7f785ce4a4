use press::claims::Claims;
use press::config::Vault;
use press::database::{default_user_record, new_user_record, User};
use press::login::{
    default_id, default_role, login_reply, login_step, role_body, verify_user, EpUser,
    LoginAction, LoginError, LoginEvent, LoginReply, LoginState,
};
use press::jwt::{create_jwt, session_claims, session_claims_at, session_token, EXPIRY_LEEWAY};
use press::role::Role;

fn secret() -> String {
    "SECRET-REDACTED".to_string()
}

fn decoded(token: &str) -> serde_json::Value {
    let key = jsonwebtoken::DecodingKey::from_secret(secret().as_bytes());
    let validation = jsonwebtoken::Validation::new(jsonwebtoken::Algorithm::HS256);
    jsonwebtoken::decode::<serde_json::Value>(token, &key, &validation).unwrap().claims
}

fn credentials(name: &str, password: &str) -> EpUser {
    EpUser {
        username: name.to_string(),
        password: password.to_string(),
        role: default_role(),
        id: default_id(),
    }
}

fn stored(name: &str, password: &str, role: Role) -> User {
    let record = new_user_record(name, password, role);
    User {
        id: 12,
        username: record.username,
        password_hash: record.password_hash,
        role: record.role,
        created_at: 0,
    }
}

#[test]
fn request_defaults() {
    assert_eq!(default_role(), "User");
    assert_eq!(default_id(), 0);
}

#[test]
fn new_record_keeps_name_role_and_hashes_password() {
    let record = new_user_record("alice", "hunter42", Role::Mod);
    assert_eq!(record.username, "alice");
    assert_eq!(record.role, Role::Mod);
    assert!(record.password_hash.starts_with("$argon2id$"));
    assert!(!record.password_hash.contains("hunter42"));
}

#[test]
fn two_records_of_one_password_differ_by_salt() {
    let first = new_user_record("a", "same", Role::User);
    let second = new_user_record("a", "same", Role::User);
    assert_ne!(first.password_hash, second.password_hash);
}

#[test]
fn default_user_is_admin_from_settings() {
    let settings = Vault {
        root: "../root".to_string(),
        database_url: "postgres://db".to_string(),
        jwt_secret: "SECRET-REDACTED".to_string(),
        username: "chief".to_string(),
        password: "pw".to_string(),
    };
    let record = default_user_record(&settings);
    assert_eq!(record.username, "chief");
    assert_eq!(record.role, Role::Admin);
}

#[test]
fn stored_password_verifies() {
    let user = stored("alice", "hunter42", Role::Mod);
    let verdict = verify_user(&credentials("alice", "hunter42"), Some(user)).unwrap();
    assert_eq!(verdict.id, 12);
    assert_eq!(verdict.role, Role::Mod);
}

#[test]
fn wrong_password_is_refused() {
    let user = stored("alice", "hunter42", Role::Mod);
    let verdict = verify_user(&credentials("alice", "hunter43"), Some(user));
    assert_eq!(verdict.unwrap_err(), LoginError::WrongPassword);
}

#[test]
fn unknown_user_is_refused() {
    let verdict = verify_user(&credentials("nobody", "pw"), None);
    assert_eq!(verdict.unwrap_err(), LoginError::UnknownUser);
}

#[test]
fn role_body_is_json() {
    assert_eq!(role_body(Role::Admin), "{\"role\":\"Admin\"}");
    assert_eq!(role_body(Role::User), "{\"role\":\"User\"}");
}

#[test]
fn session_request_answers_its_role() {
    let claims = Claims { user_id: 2, role: Role::Mod, exp: 99 };
    let (state, action) = login_step(
        LoginState::Start,
        LoginEvent::Request { claims: Some(claims), body_is_empty: false },
        &secret(),
    );
    assert!(matches!(state, LoginState::Finished));
    assert!(matches!(
        action,
        LoginAction::Respond { reply: LoginReply::SignedIn { role: Role::Mod, token: None } }
    ));
}

#[test]
fn empty_body_without_session_expects_credentials() {
    let (state, action) = login_step(
        LoginState::Start,
        LoginEvent::Request { claims: None, body_is_empty: true },
        &secret(),
    );
    assert!(matches!(state, LoginState::Finished));
    assert!(matches!(action, LoginAction::Respond { reply: LoginReply::ExpectationFailed }));
}

#[test]
fn full_login_issues_token() {
    let (state, action) = login_step(
        LoginState::Start,
        LoginEvent::Request { claims: None, body_is_empty: false },
        &secret(),
    );
    assert!(matches!(action, LoginAction::ParseCredentials));
    let (state, action) =
        login_step(state, LoginEvent::Credentials { user: credentials("alice", "hunter42") }, &secret());
    match action {
        LoginAction::LookUpUser { username } => assert_eq!(username, "alice"),
        other => panic!("unexpected {:?}", other),
    }
    let found = stored("alice", "hunter42", Role::Admin);
    let (state, action) = login_step(state, LoginEvent::UserFound { found: Some(found) }, &secret());
    assert!(matches!(state, LoginState::Finished));
    match action {
        LoginAction::Respond { reply: LoginReply::SignedIn { role, token } } => {
            assert_eq!(role, Role::Admin);
            let claims = decoded(&token.unwrap());
            assert_eq!(claims["user_id"], 12);
            assert_eq!(claims["role"], "Admin");
            let exp = claims["exp"].as_u64().unwrap();
            let now = std::time::SystemTime::now()
                .duration_since(std::time::UNIX_EPOCH)
                .unwrap()
                .as_secs();
            assert!(exp >= now + 3600 && exp <= now + 3600 + 60);
        }
        other => panic!("unexpected {:?}", other),
    }
}

#[test]
fn login_with_wrong_password_is_unauthorized() {
    let state = LoginState::AwaitUser { credentials: credentials("alice", "wrong") };
    let found = stored("alice", "hunter42", Role::Admin);
    let (state, action) = login_step(state, LoginEvent::UserFound { found: Some(found) }, &secret());
    assert!(matches!(state, LoginState::Finished));
    assert!(matches!(action, LoginAction::Respond { reply: LoginReply::Unauthorized }));
}

#[test]
fn login_of_unknown_user_is_unauthorized() {
    let state = LoginState::AwaitUser { credentials: credentials("ghost", "pw") };
    let (_, action) = login_step(state, LoginEvent::UserFound { found: None }, &secret());
    assert!(matches!(action, LoginAction::Respond { reply: LoginReply::Unauthorized }));
}

#[test]
fn unreadable_stored_hash_stops_the_login() {
    let state = LoginState::AwaitUser { credentials: credentials("alice", "pw") };
    let found = User {
        id: 1,
        username: "alice".to_string(),
        password_hash: "plain text".to_string(),
        role: Role::User,
        created_at: 0,
    };
    let (_, action) = login_step(state, LoginEvent::UserFound { found: Some(found) }, &secret());
    assert!(matches!(action, LoginAction::StoredHashUnreadable));
}

#[test]
fn failed_token_is_unauthorized() {
    let (_, action) = login_step(
        LoginState::AwaitToken { role: Role::User },
        LoginEvent::TokenIssued { token: None },
        &secret(),
    );
    assert!(matches!(action, LoginAction::Respond { reply: LoginReply::Unauthorized }));
}

#[test]
fn out_of_order_event_is_unauthorized() {
    let (state, action) =
        login_step(LoginState::Start, LoginEvent::TokenIssued { token: Some("t".to_string()) }, &secret());
    assert!(matches!(state, LoginState::Finished));
    assert!(matches!(action, LoginAction::Respond { reply: LoginReply::Unauthorized }));
}

#[test]
fn login_replies() {
    let signed = login_reply(LoginReply::SignedIn { role: Role::Mod, token: Some("t".into()) });
    assert_eq!(signed.status, 200);
    assert_eq!(signed.content_type.as_deref(), Some("application/json"));
    assert_eq!(signed.body, "{\"role\":\"Mod\"}");
    let cookie = signed.session_cookie.unwrap();
    assert_eq!(cookie.name, "jwt_token");
    assert_eq!(cookie.value, "t");
    assert!(cookie.http_only && cookie.secure && cookie.same_site_strict);
    let anonymous = login_reply(LoginReply::SignedIn { role: Role::User, token: None });
    assert!(anonymous.session_cookie.is_none());
    let refused = login_reply(LoginReply::Unauthorized);
    assert_eq!(refused.status, 401);
    assert_eq!(refused.body, "");
    assert!(refused.session_cookie.is_none());
    let expected = login_reply(LoginReply::ExpectationFailed);
    assert_eq!(expected.status, 417);
    assert_eq!(expected.body, "");
}

#[test]
fn session_token_carries_the_claims() {
    let claims = Claims { user_id: 7, role: Role::Mod, exp: 4_000_000_000 };
    let token = session_token(claims, "SECRET-REDACTED").unwrap();
    assert_eq!(token.split('.').count(), 3);
    let decoded = decoded(&token);
    assert_eq!(decoded["user_id"], 7);
    assert_eq!(decoded["role"], "Mod");
    assert_eq!(decoded["exp"], 4_000_000_000u64);
}

#[test]
fn created_token_is_signed_with_the_secret() {
    let token = create_jwt(5, &Role::User, &secret()).unwrap();
    let claims = decoded(&token);
    assert_eq!(claims["user_id"], 5);
    assert_eq!(claims["role"], "User");
    let other = jsonwebtoken::DecodingKey::from_secret(b"another secret");
    let validation = jsonwebtoken::Validation::new(jsonwebtoken::Algorithm::HS256);
    assert!(jsonwebtoken::decode::<serde_json::Value>(&token, &other, &validation).is_err());
}

fn signed(members: &[(&str, serde_json::Value)], key: &str) -> String {
    let mut claims = serde_json::Map::new();
    for (name, value) in members {
        claims.insert(name.to_string(), value.clone());
    }
    jsonwebtoken::encode(
        &jsonwebtoken::Header::new(jsonwebtoken::Algorithm::HS256),
        &claims,
        &jsonwebtoken::EncodingKey::from_secret(key.as_bytes()),
    )
    .unwrap()
}

#[test]
fn session_token_is_granted_until_the_leeway_ends() {
    let claims = Claims { user_id: 8, role: Role::Admin, exp: 1_000_000 };
    let token = session_token(claims, "k").unwrap();
    let granted = session_claims_at(Some(&token), "k", 1_000_000 + 60).unwrap();
    assert_eq!(granted.user_id, 8);
    assert_eq!(granted.role, Role::Admin);
    assert_eq!(granted.exp, 1_000_000);
    assert!(session_claims_at(Some(&token), "k", 0).is_some());
    assert!(session_claims_at(Some(&token), "k", 1_000_000 + 61).is_none());
    assert_eq!(EXPIRY_LEEWAY, 60);
}

#[test]
fn no_cookie_grants_nothing() {
    assert!(session_claims_at(None, "k", 0).is_none());
    assert!(session_claims(None, "k").is_none());
}

#[test]
fn token_of_another_secret_grants_nothing() {
    let token = session_token(Claims { user_id: 1, role: Role::User, exp: 10 }, "one").unwrap();
    assert!(session_claims_at(Some(&token), "two", 0).is_none());
}

#[test]
fn malformed_token_grants_nothing() {
    assert!(session_claims_at(Some("not.a.token"), "k", 0).is_none());
    assert!(session_claims_at(Some(""), "k", 0).is_none());
}

#[test]
fn token_with_unknown_role_grants_nothing() {
    let token = signed(
        &[("user_id", 1.into()), ("role", "root".into()), ("exp", 100u64.into())],
        "k",
    );
    assert!(session_claims_at(Some(&token), "k", 0).is_none());
    let lower = signed(
        &[("user_id", 1.into()), ("role", "admin".into()), ("exp", 100u64.into())],
        "k",
    );
    assert!(session_claims_at(Some(&lower), "k", 0).is_none());
}

#[test]
fn token_with_wide_user_id_grants_nothing() {
    let token = signed(
        &[("user_id", 5_000_000_000i64.into()), ("role", "User".into()), ("exp", 100u64.into())],
        "k",
    );
    assert!(session_claims_at(Some(&token), "k", 0).is_none());
}

#[test]
fn token_without_expiry_grants_nothing() {
    let token = signed(&[("user_id", 1.into()), ("role", "User".into())], "k");
    assert!(session_claims_at(Some(&token), "k", 0).is_none());
}

#[test]
fn created_token_grants_its_claims_now() {
    let token = create_jwt(21, &Role::Mod, &secret()).unwrap();
    let granted = session_claims(Some(&token), &secret()).unwrap();
    assert_eq!(granted.user_id, 21);
    assert_eq!(granted.role, Role::Mod);
}
