use vstd::prelude::*;
use crate::domain::model::Note;
use crate::middleware::auth::model::JWTClaim;

verus! {

/// The body of a signup request.
#[derive(Debug)]
pub struct SignupInput {
    pub email: String,
    pub password: String,
}

/// The body of a login request.
#[derive(Debug)]
pub struct LoginInput {
    pub email: String,
    pub password: String,
}

/// The body of the answer to a login: the signed identity token.
#[derive(Debug)]
pub struct LoginOutput {
    pub token: String,
}

/// The body of a request that creates a note.
#[derive(Debug)]
pub struct CreateNoteInput {
    pub title: String,
    pub content: String,
}

/// The body of a request that changes a note: what is `None` stays as it is.
#[derive(Debug)]
pub struct UpdateNoteInput {
    pub title: Option<String>,
    pub content: Option<String>,
}

/// The status codes that the handlers answer with.
pub const OK: u16 = 200;

pub const CREATED: u16 = 201;

pub const BAD_REQUEST: u16 = 400;

pub const UNAUTHORIZED: u16 = 401;

pub const FORBIDDEN: u16 = 403;

pub const NOT_FOUND: u16 = 404;

pub const CONFLICT: u16 = 409;

pub const INTERNAL_SERVER_ERROR: u16 = 500;

/// What an answer carries.
#[derive(Debug)]
pub enum Body {
    Empty,
    Token(LoginOutput),
    Claim(JWTClaim),
    Note(Note),
}

/// The answer to a request: the status code and the body.
#[derive(Debug)]
pub struct Reply {
    pub status: u16,
    pub body: Body,
}

impl Reply {
    /// The answer with this status and nothing else.
    pub open spec fn bare(status: u16) -> Reply {
        Reply { status, body: Body::Empty }
    }

    /// The answer with this status and no body.
    pub fn empty(status: u16) -> (reply: Reply)
        ensures
            reply == Reply::bare(status),
    {
        Reply { status, body: Body::Empty }
    }
}

} // verus!
