//! Signing in: the credentials a client sends, how they are checked against
//! the stored user, and the decisions of the login route.

use vstd::prelude::*;
use vstd::string::*;
use crate::claims::{Claims, TOKEN_LIFETIME};
use crate::jwt::{create_jwt, session_token_of};
use crate::database::{NewUser, User, records_credentials};
use crate::password::{argon2_accepts, argon2_verify, phc_parses, phc_well_formed};
use crate::reply::{
    Reply, STATUS_EXPECTATION_FAILED, STATUS_OK, STATUS_UNAUTHORIZED, carries_session,
    declared_type, is_plain, session_cookie,
};
use crate::role::{Role, role_name};

verus! {

/// The user that a client sends to the login and administration routes.
/// `role` and `id` may be left out; they then read as `default_role()` and
/// `default_id()`.
#[derive(Debug)]
pub struct EpUser {
    pub username: String,
    pub password: String,
    pub role: String,
    pub id: i32,
}

/// The role of a user whose request names none.
pub fn default_role() -> (role: String)
    ensures
        role@ == "User"@,
{
    String::from_str("User")
}

/// The id of a user whose request names none.
pub fn default_id() -> (id: i32)
    ensures
        id == 0,
{
    0
}

/// Why a sign-in was refused.
#[derive(Debug, Clone, Copy, PartialEq, Eq, Structural)]
pub enum LoginError {
    /// No user with that name could be found.
    UnknownUser,
    /// The password does not match the stored hash.
    WrongPassword,
}

/// The outcome of checking `password` against the user found under the
/// requested name.
pub open spec fn login_verdict(password: Seq<char>, found: Option<User>) -> Result<User, LoginError> {
    match found {
        None => Err(LoginError::UnknownUser),
        Some(u) => if argon2_accepts(password, u.password_hash@) {
            Ok(u)
        } else {
            Err(LoginError::WrongPassword)
        },
    }
}

/// Checks the password of `user` against `found`, the stored user of that
/// name (`None` when the lookup found no user or failed).
pub fn verify_user(user: &EpUser, found: Option<User>) -> (verdict: Result<User, LoginError>)
    requires
        found matches Some(u) ==> phc_well_formed(u.password_hash@),
    ensures
        verdict == login_verdict(user.password@, found),
{
    match found {
        None => Err(LoginError::UnknownUser),
        Some(u) => {
            if argon2_verify(user.password.as_str(), u.password_hash.as_str()) {
                Ok(u)
            } else {
                Err(LoginError::WrongPassword)
            }
        },
    }
}

/// The JSON document that tells a signed-in client its role.
pub open spec fn role_document(role: Role) -> Seq<char> {
    "{\"role\":\""@ + role_name(role) + "\"}"@
}

/// Writes the JSON document `{"role":"<name>"}` for `role`.
pub fn role_body(role: Role) -> (body: String)
    ensures
        body@ == role_document(role),
{
    let mut body = String::from_str("{\"role\":\"");
    let name = role.name();
    body.append(name.as_str());
    body.append("\"}");
    body
}

/// Where a login request stands.
#[derive(Debug)]
pub enum LoginState {
    /// Nothing is known of the request yet.
    Start,
    /// The body is to be read as the client's credentials.
    AwaitCredentials,
    /// The user named in `credentials` is being looked up.
    AwaitUser { credentials: EpUser },
    /// A session token is being made for a user with `role`.
    AwaitToken { role: Role },
    /// The request has been answered.
    Finished,
}

/// What the login route learns from outside.
#[derive(Debug)]
pub enum LoginEvent {
    /// The request arrived: the claims of its session token, if it carries a
    /// valid one, and whether its body is empty.
    Request { claims: Option<Claims>, body_is_empty: bool },
    /// The body, read as credentials.
    Credentials { user: EpUser },
    /// The stored user of the requested name, `None` when the lookup failed.
    UserFound { found: Option<User> },
    /// The session token made for the user, `None` when it could not be made.
    /// `login_step` takes this decision itself, right after it makes the token.
    TokenIssued { token: Option<String> },
}

/// How a login request is answered.
#[derive(Debug)]
pub enum LoginReply {
    /// `200` with the role of the client, setting the session token in the
    /// session cookie when there is one.
    SignedIn { role: Role, token: Option<String> },
    /// `401`: the credentials were refused.
    Unauthorized,
    /// `417`: neither a session nor credentials came with the request.
    ExpectationFailed,
}

/// What the login route asks of the outside next.
#[derive(Debug)]
pub enum LoginAction {
    /// Read the request body as credentials.
    ParseCredentials,
    /// Look up the stored user with this name.
    LookUpUser { username: String },
    /// Make a session token for this user. `login_step` makes the token
    /// itself and never hands this action out.
    IssueToken { user_id: i32, role: Role },
    /// The stored password hash of the user is not a PHC string: the request
    /// cannot be served.
    StoredHashUnreadable,
    /// Answer the request.
    Respond { reply: LoginReply },
}

/// The answer that refuses a sign-in.
pub open spec fn refused() -> (LoginState, LoginAction) {
    (LoginState::Finished, LoginAction::Respond { reply: LoginReply::Unauthorized })
}

/// The decisions of the login route: from where the request stands and what
/// was learnt, where it goes next and what is to be done.
pub open spec fn login_next(state: LoginState, event: LoginEvent) -> (LoginState, LoginAction) {
    match (state, event) {
        (LoginState::Start, LoginEvent::Request { claims, body_is_empty }) => match claims {
            Some(c) => (
                LoginState::Finished,
                LoginAction::Respond { reply: LoginReply::SignedIn { role: c.role, token: None } },
            ),
            None => if body_is_empty {
                (
                    LoginState::Finished,
                    LoginAction::Respond { reply: LoginReply::ExpectationFailed },
                )
            } else {
                (LoginState::AwaitCredentials, LoginAction::ParseCredentials)
            },
        },
        (LoginState::AwaitCredentials, LoginEvent::Credentials { user }) => (
            LoginState::AwaitUser { credentials: user },
            LoginAction::LookUpUser { username: user.username },
        ),
        (LoginState::AwaitUser { credentials }, LoginEvent::UserFound { found }) => {
            if found matches Some(u) && !phc_well_formed(u.password_hash@) {
                (LoginState::Finished, LoginAction::StoredHashUnreadable)
            } else {
                match login_verdict(credentials.password@, found) {
                    Ok(u) => (
                        LoginState::AwaitToken { role: u.role },
                        LoginAction::IssueToken { user_id: u.id, role: u.role },
                    ),
                    Err(_) => refused(),
                }
            }
        },
        (LoginState::AwaitToken { role }, LoginEvent::TokenIssued { token }) => match token {
            Some(t) => (
                LoginState::Finished,
                LoginAction::Respond { reply: LoginReply::SignedIn { role, token: Some(t) } },
            ),
            None => refused(),
        },
        _ => refused(),
    }
}

/// One decision of the login route. An event that does not fit where the
/// request stands is answered as a refused sign-in. Where the decision is to
/// make a session token, the step makes it itself, signed with `secret`, and
/// takes the decision that follows on it: `IssueToken` is never handed out.
pub fn login_step(state: LoginState, event: LoginEvent, secret: &String) -> (next: (
    LoginState,
    LoginAction,
))
    ensures
        !(next.1 is IssueToken),
        !(login_next(state, event).1 is IssueToken) ==> next == login_next(state, event),
        login_next(state, event).1 matches LoginAction::IssueToken { user_id, role } ==> exists|
            token: Option<String>,
        |
            #![trigger login_next(login_next(state, event).0, LoginEvent::TokenIssued { token })]
            session_token_of(token, user_id, role, secret@) && (i64::MAX + TOKEN_LIFETIME
                <= usize::MAX ==> token is Some) && next == login_next(
                login_next(state, event).0,
                LoginEvent::TokenIssued { token },
            ),
        state is AwaitUser && event is UserFound && event->found is Some && phc_well_formed(
            event->found->0.password_hash@,
        ) && argon2_accepts(state->credentials.password@, event->found->0.password_hash@) ==> {
            &&& next.0 is Finished
            &&& next.1 is Respond
            &&& next.1->reply is SignedIn ==> next.1->reply->role == event->found->0.role
                && next.1->reply->token is Some && session_token_of(
                next.1->reply->token,
                event->found->0.id,
                event->found->0.role,
                secret@,
            )
            &&& !(next.1->reply is SignedIn) ==> next.1->reply is Unauthorized
            &&& i64::MAX + TOKEN_LIFETIME <= usize::MAX ==> next.1->reply is SignedIn
        },
{
    match (state, event) {
        (LoginState::Start, LoginEvent::Request { claims, body_is_empty }) => match claims {
            Some(c) => (
                LoginState::Finished,
                LoginAction::Respond { reply: LoginReply::SignedIn { role: c.role, token: None } },
            ),
            None => if body_is_empty {
                (
                    LoginState::Finished,
                    LoginAction::Respond { reply: LoginReply::ExpectationFailed },
                )
            } else {
                (LoginState::AwaitCredentials, LoginAction::ParseCredentials)
            },
        },
        (LoginState::AwaitCredentials, LoginEvent::Credentials { user }) => {
            let username = user.username.clone();
            (LoginState::AwaitUser { credentials: user }, LoginAction::LookUpUser { username })
        },
        (LoginState::AwaitUser { credentials }, LoginEvent::UserFound { found }) => {
            let readable = match &found {
                Some(u) => phc_parses(u.password_hash.as_str()),
                None => true,
            };
            if !readable {
                (LoginState::Finished, LoginAction::StoredHashUnreadable)
            } else {
                match verify_user(&credentials, found) {
                    Ok(u) => {
                        let role = u.role;
                        let token = create_jwt(u.id, &role, secret);
                        let ghost issued = token;
                        let next = match token {
                            Some(t) => (
                                LoginState::Finished,
                                LoginAction::Respond {
                                    reply: LoginReply::SignedIn { role, token: Some(t) },
                                },
                            ),
                            None => (
                                LoginState::Finished,
                                LoginAction::Respond { reply: LoginReply::Unauthorized },
                            ),
                        };
                        assert(next == login_next(
                            login_next(state, event).0,
                            LoginEvent::TokenIssued { token: issued },
                        ));
                        next
                    },
                    Err(_) => (
                        LoginState::Finished,
                        LoginAction::Respond { reply: LoginReply::Unauthorized },
                    ),
                }
            }
        },
        (LoginState::AwaitToken { role }, LoginEvent::TokenIssued { token }) => match token {
            Some(t) => (
                LoginState::Finished,
                LoginAction::Respond { reply: LoginReply::SignedIn { role, token: Some(t) } },
            ),
            None => (LoginState::Finished, LoginAction::Respond { reply: LoginReply::Unauthorized }),
        },
        _ => (LoginState::Finished, LoginAction::Respond { reply: LoginReply::Unauthorized }),
    }
}

/// The reply that answers a login request.
pub fn login_reply(reply: LoginReply) -> (answer: Reply)
    ensures
        match reply {
            LoginReply::SignedIn { role, token } => {
                &&& answer.status == STATUS_OK
                &&& declared_type(answer) == Some("application/json"@)
                &&& answer.body@ == role_document(role)
                &&& match token {
                    Some(t) => answer.session_cookie matches Some(c) && carries_session(c, t@),
                    None => answer.session_cookie is None,
                }
            },
            LoginReply::Unauthorized => is_plain(answer, STATUS_UNAUTHORIZED, Seq::empty()),
            LoginReply::ExpectationFailed => is_plain(
                answer,
                STATUS_EXPECTATION_FAILED,
                Seq::empty(),
            ),
        },
{
    match reply {
        LoginReply::SignedIn { role, token } => Reply {
            status: STATUS_OK,
            content_type: Some(String::from_str("application/json")),
            body: role_body(role),
            session_cookie: match token {
                Some(t) => Some(session_cookie(t)),
                None => None,
            },
        },
        LoginReply::Unauthorized => Reply {
            status: STATUS_UNAUTHORIZED,
            content_type: None,
            body: String::new(),
            session_cookie: None,
        },
        LoginReply::ExpectationFailed => Reply {
            status: STATUS_EXPECTATION_FAILED,
            content_type: None,
            body: String::new(),
            session_cookie: None,
        },
    }
}

/// The actions that the login route takes on `events`, starting from `state`.
pub open spec fn login_run(state: LoginState, events: Seq<LoginEvent>) -> Seq<LoginAction>
    decreases events.len(),
{
    if events.len() == 0 {
        Seq::empty()
    } else {
        let (next, action) = login_next(state, events[0]);
        seq![action] + login_run(next, events.drop_first())
    }
}

/// Whether an action answers the request with a new session token.
pub open spec fn grants_session(action: LoginAction) -> bool {
    action matches LoginAction::Respond { reply: LoginReply::SignedIn { token: Some(_), .. } }
}

/// Whether the stored user `found` has a PHC string that `password` matches.
pub open spec fn password_matches(password: Seq<char>, found: Option<User>) -> bool {
    found matches Some(u) && argon2_accepts(password, u.password_hash@)
}

proof fn lemma_run_unfold(state: LoginState, events: Seq<LoginEvent>)
    requires
        events.len() > 0,
    ensures
        login_run(state, events).len() == events.len(),
        login_run(state, events)[0] == login_next(state, events[0]).1,
        forall|i: int|
            1 <= i < events.len() ==> #[trigger] login_run(state, events)[i] == login_run(
                login_next(state, events[0]).0,
                events.drop_first(),
            )[i - 1],
    decreases events.len(),
{
    lemma_run_len(login_next(state, events[0]).0, events.drop_first());
}

proof fn lemma_run_len(state: LoginState, events: Seq<LoginEvent>)
    ensures
        login_run(state, events).len() == events.len(),
    decreases events.len(),
{
    if events.len() > 0 {
        lemma_run_len(login_next(state, events[0]).0, events.drop_first());
    }
}

proof fn lemma_finished_grants_nothing(events: Seq<LoginEvent>)
    ensures
        forall|i: int|
            0 <= i < events.len() ==> !grants_session(
                #[trigger] login_run(LoginState::Finished, events)[i],
            ),
    decreases events.len(),
{
    if events.len() > 0 {
        lemma_run_unfold(LoginState::Finished, events);
        lemma_finished_grants_nothing(events.drop_first());
    }
}

proof fn lemma_token_state_grants_first(role: Role, events: Seq<LoginEvent>)
    ensures
        forall|i: int|
            0 <= i < events.len() && grants_session(
                #[trigger] login_run(LoginState::AwaitToken { role }, events)[i],
            ) ==> i == 0,
{
    if events.len() > 0 {
        lemma_run_unfold(LoginState::AwaitToken { role }, events);
        lemma_finished_grants_nothing(events.drop_first());
    }
}

proof fn lemma_user_state_grants(credentials: EpUser, events: Seq<LoginEvent>)
    ensures
        forall|i: int|
            0 <= i < events.len() && grants_session(
                #[trigger] login_run(LoginState::AwaitUser { credentials }, events)[i],
            ) ==> (i == 1 && (events[0] matches LoginEvent::UserFound { found }
                && password_matches(credentials.password@, found))),
{
    if events.len() > 0 {
        let state = LoginState::AwaitUser { credentials };
        lemma_run_unfold(state, events);
        let next = login_next(state, events[0]).0;
        lemma_finished_grants_nothing(events.drop_first());
        if let LoginState::AwaitToken { role } = next {
            lemma_token_state_grants_first(role, events.drop_first());
        }
    }
}

proof fn lemma_credentials_state_grants(events: Seq<LoginEvent>)
    ensures
        forall|i: int|
            0 <= i < events.len() && grants_session(
                #[trigger] login_run(LoginState::AwaitCredentials, events)[i],
            ) ==> (i == 2 && (events[0] matches LoginEvent::Credentials { user }
                && (events[1] matches LoginEvent::UserFound { found } && password_matches(
                user.password@,
                found,
            )))),
{
    if events.len() > 0 {
        lemma_run_unfold(LoginState::AwaitCredentials, events);
        lemma_finished_grants_nothing(events.drop_first());
        if let LoginEvent::Credentials { user } = events[0] {
            lemma_user_state_grants(user, events.drop_first());
        }
    }
}

/// A login request is answered with a new session token only along the one
/// path that checks a password: it carried no session and a non-empty body,
/// the body read as credentials, the stored user of that name was found, and
/// the password of the credentials matches the stored hash; the token then
/// comes with the fourth action.
pub proof fn lemma_session_needs_matching_password(events: Seq<LoginEvent>, i: int)
    requires
        0 <= i < events.len(),
        grants_session(login_run(LoginState::Start, events)[i]),
    ensures
        i == 3,
        events[0] matches LoginEvent::Request { claims, body_is_empty } && claims is None
            && !body_is_empty,
        events[1] matches LoginEvent::Credentials { user } && events[2] matches LoginEvent::UserFound {
            found,
        } && password_matches(user.password@, found),
{
    lemma_run_unfold(LoginState::Start, events);
    lemma_finished_grants_nothing(events.drop_first());
    lemma_credentials_state_grants(events.drop_first());
}

/// A user stored with the credentials of `record` signs in with the password
/// it was stored with: the login route goes on to issue the user a session
/// token.
pub proof fn lemma_stored_password_signs_in(record: NewUser, stored: User, credentials: EpUser)
    requires
        records_credentials(record, stored.username@, credentials.password@, stored.role),
        stored.password_hash@ == record.password_hash@,
    ensures
        login_verdict(credentials.password@, Some(stored)) == Ok::<User, LoginError>(stored),
        login_next(
            LoginState::AwaitUser { credentials },
            LoginEvent::UserFound { found: Some(stored) },
        ) == (
            LoginState::AwaitToken { role: stored.role },
            LoginAction::IssueToken { user_id: stored.id, role: stored.role },
        ),
{
}

/// A password that does not match the stored hash is refused with `401`.
pub proof fn lemma_wrong_password_refused(credentials: EpUser, stored: User)
    requires
        phc_well_formed(stored.password_hash@),
        !argon2_accepts(credentials.password@, stored.password_hash@),
    ensures
        login_next(
            LoginState::AwaitUser { credentials },
            LoginEvent::UserFound { found: Some(stored) },
        ) == refused(),
{
}

/// A request that carries a valid session is answered with the role of that
/// session, without a new token and without reading its body.
pub proof fn lemma_session_answers_role(claims: Claims, body_is_empty: bool)
    ensures
        login_next(
            LoginState::Start,
            LoginEvent::Request { claims: Some(claims), body_is_empty },
        ) == (
            LoginState::Finished,
            LoginAction::Respond { reply: LoginReply::SignedIn { role: claims.role, token: None } },
        ),
{
}

/// How many decisions at most remain before a login request is answered.
pub open spec fn decisions_left(state: LoginState) -> nat {
    match state {
        LoginState::Start => 4,
        LoginState::AwaitCredentials => 3,
        LoginState::AwaitUser { .. } => 2,
        LoginState::AwaitToken { .. } => 1,
        LoginState::Finished => 0,
    }
}

/// Whether an action ends the request: it answers it, or finds that it
/// cannot be served.
pub open spec fn ends_request(action: LoginAction) -> bool {
    action is Respond || action is StoredHashUnreadable
}

/// Every login request is answered, and only once: each decision on an open
/// request brings it closer to its end, and a decision ends the request
/// exactly when the request is then finished.
pub proof fn lemma_login_progresses(state: LoginState, event: LoginEvent)
    ensures
        !(state is Finished) ==> decisions_left(login_next(state, event).0) < decisions_left(
            state,
        ),
        login_next(state, event).0 is Finished <==> ends_request(login_next(state, event).1),
{
}

/// Once the password of the credentials matches the stored user's hash, the
/// route makes a session token for exactly that user's id and role, and the
/// sign-in reply names the stored user's role, whatever that role is.
pub proof fn lemma_signed_in_with_stored_role(credentials: EpUser, stored: User, token: String)
    requires
        phc_well_formed(stored.password_hash@),
        argon2_accepts(credentials.password@, stored.password_hash@),
    ensures
        login_next(
            LoginState::AwaitUser { credentials },
            LoginEvent::UserFound { found: Some(stored) },
        ).1 == (LoginAction::IssueToken { user_id: stored.id, role: stored.role }),
        login_next(
            login_next(
                LoginState::AwaitUser { credentials },
                LoginEvent::UserFound { found: Some(stored) },
            ).0,
            LoginEvent::TokenIssued { token: Some(token) },
        ) == (
            LoginState::Finished,
            LoginAction::Respond {
                reply: LoginReply::SignedIn { role: stored.role, token: Some(token) },
            },
        ),
{
}

} // verus!
