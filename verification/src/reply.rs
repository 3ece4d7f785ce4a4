//! The replies that the server sends, as plain values.

use vstd::prelude::*;
use vstd::string::*;

verus! {

pub const STATUS_OK: u16 = 200;

pub const STATUS_UNAUTHORIZED: u16 = 401;

pub const STATUS_NOT_FOUND: u16 = 404;

pub const STATUS_EXPECTATION_FAILED: u16 = 417;

pub const STATUS_INTERNAL_SERVER_ERROR: u16 = 500;

/// A cookie that a reply sets: its name and value, and whether it is hidden
/// from scripts (`HttpOnly`), sent over secure connections only (`Secure`),
/// and kept from cross-site requests (`SameSite=Strict`).
#[derive(Debug)]
pub struct SessionCookie {
    pub name: String,
    pub value: String,
    pub http_only: bool,
    pub secure: bool,
    pub same_site_strict: bool,
}

/// The name of the cookie that carries the session token.
pub fn session_cookie_name() -> (name: &'static str)
    ensures
        name@ == "jwt_token"@,
{
    "jwt_token"
}

/// Whether `cookie` carries the session token `token` under the session
/// cookie's name, hidden from scripts, over secure connections only and kept
/// from cross-site requests.
pub open spec fn carries_session(cookie: SessionCookie, token: Seq<char>) -> bool {
    &&& cookie.name@ == "jwt_token"@
    &&& cookie.value@ == token
    &&& cookie.http_only
    &&& cookie.secure
    &&& cookie.same_site_strict
}

/// The cookie that carries the session token `token`.
pub fn session_cookie(token: String) -> (cookie: SessionCookie)
    ensures
        carries_session(cookie, token@),
{
    SessionCookie {
        name: String::from_str(session_cookie_name()),
        value: token,
        http_only: true,
        secure: true,
        same_site_strict: true,
    }
}

/// A reply: its status, the content type it declares (if any), its body, and
/// the cookie that it sets (if any).
#[derive(Debug)]
pub struct Reply {
    pub status: u16,
    pub content_type: Option<String>,
    pub body: String,
    pub session_cookie: Option<SessionCookie>,
}

/// A reply with `status` and `body`, no declared content type and no cookie.
pub open spec fn is_plain(reply: Reply, status: u16, body: Seq<char>) -> bool {
    &&& reply.status == status
    &&& reply.content_type is None
    &&& reply.body@ == body
    &&& reply.session_cookie is None
}

/// The content type declared by a reply, as characters.
pub open spec fn declared_type(reply: Reply) -> Option<Seq<char>> {
    match reply.content_type {
        Some(t) => Some(t@),
        None => None,
    }
}

impl Reply {
    /// The answer to a request that no route admits.
    pub fn unauthorized() -> (reply: Reply)
        ensures
            is_plain(reply, STATUS_UNAUTHORIZED, "Unauthorized!"@),
    {
        Reply {
            status: STATUS_UNAUTHORIZED,
            content_type: None,
            body: String::from_str("Unauthorized!"),
            session_cookie: None,
        }
    }

    /// The answer to a read of a content file: the file with `content_type`
    /// when it could be read, else "Not found.".
    pub fn file(content: Option<String>, content_type: Option<&str>) -> (reply: Reply)
        ensures
            content matches Some(c) ==> {
                &&& reply.status == STATUS_OK
                &&& reply.body@ == c@
                &&& declared_type(reply) == match content_type {
                    Some(t) => Some(t@),
                    None => None::<Seq<char>>,
                }
                &&& reply.session_cookie is None
            },
            content is None ==> is_plain(reply, STATUS_NOT_FOUND, "Not found."@),
    {
        match content {
            Some(body) => Reply {
                status: STATUS_OK,
                content_type: match content_type {
                    Some(t) => Some(String::from_str(t)),
                    None => None,
                },
                body,
                session_cookie: None,
            },
            None => Reply {
                status: STATUS_NOT_FOUND,
                content_type: None,
                body: String::from_str("Not found."),
                session_cookie: None,
            },
        }
    }

    /// The answer to a write (a stored file, a stored or removed user):
    /// an empty reply, `200` when it succeeded and `500` when it failed.
    pub fn written(succeeded: bool) -> (reply: Reply)
        ensures
            succeeded ==> is_plain(reply, STATUS_OK, Seq::empty()),
            !succeeded ==> is_plain(reply, STATUS_INTERNAL_SERVER_ERROR, Seq::empty()),
    {
        Reply {
            status: if succeeded {
                STATUS_OK
            } else {
                STATUS_INTERNAL_SERVER_ERROR
            },
            content_type: None,
            body: String::new(),
            session_cookie: None,
        }
    }

    /// The answer to an image upload.
    pub fn uploaded() -> (reply: Reply)
        ensures
            is_plain(reply, STATUS_OK, "Image(s) uploaded successfully!"@),
    {
        Reply {
            status: STATUS_OK,
            content_type: None,
            body: String::from_str("Image(s) uploaded successfully!"),
            session_cookie: None,
        }
    }

    /// The answer carrying a JSON document, or `500` when it could not be
    /// produced.
    pub fn json(document: Option<String>) -> (reply: Reply)
        ensures
            document matches Some(d) ==> {
                &&& reply.status == STATUS_OK
                &&& reply.body@ == d@
                &&& declared_type(reply) == Some("application/json"@)
                &&& reply.session_cookie is None
            },
            document is None ==> is_plain(reply, STATUS_INTERNAL_SERVER_ERROR, Seq::empty()),
    {
        match document {
            Some(body) => Reply {
                status: STATUS_OK,
                content_type: Some(String::from_str("application/json")),
                body,
                session_cookie: None,
            },
            None => Reply::written(false),
        }
    }

    /// A `200` answer with `body` and no declared content type.
    pub fn text(body: String) -> (reply: Reply)
        ensures
            is_plain(reply, STATUS_OK, body@),
    {
        Reply { status: STATUS_OK, content_type: None, body, session_cookie: None }
    }
}

} // verus!
