use vstd::prelude::*;
use crate::domain::model::Note;
use crate::handlers::model::{Body, Reply, CREATED, FORBIDDEN, INTERNAL_SERVER_ERROR, NOT_FOUND, OK};
use crate::middleware::auth::extractor::AuthenticatedUser;
use crate::repository::user::RepoError;

verus! {

/// The answer that carries a note, or says that there is none, or that the
/// store failed.
pub open spec fn note_response(answer: Result<Option<Note>, RepoError>) -> Reply {
    match answer {
        Ok(Some(note)) => Reply { status: OK, body: Body::Note(note) },
        Ok(None) => Reply::bare(NOT_FOUND),
        Err(_) => Reply::bare(INTERNAL_SERVER_ERROR),
    }
}

/// Answers a request for a note, from what the store found.  Notes are
/// public: no identity is asked for.
pub fn get_note(found: Result<Option<Note>, RepoError>) -> (reply: Reply)
    ensures
        reply == note_response(found),
{
    match found {
        Ok(Some(note)) => Reply { status: OK, body: Body::Note(note) },
        Ok(None) => Reply::empty(NOT_FOUND),
        Err(_) => Reply::empty(INTERNAL_SERVER_ERROR),
    }
}

/// Answers a request to create a note, from what the store made of it.
pub fn create_note(created: Result<Note, RepoError>) -> (reply: Reply)
    ensures
        reply == match created {
            Ok(note) => Reply { status: CREATED, body: Body::Note(note) },
            Err(_) => Reply::bare(INTERNAL_SERVER_ERROR),
        },
{
    match created {
        Ok(note) => Reply { status: CREATED, body: Body::Note(note) },
        Err(_) => Reply::empty(INTERNAL_SERVER_ERROR),
    }
}

/// Whether `user` may change `note`: only the account that wrote it may.
/// Where the answer is a reply, the request ends with it and the store is not
/// asked to change anything.
pub fn authorize_update(user: &AuthenticatedUser, note: &Note) -> (refusal: Option<Reply>)
    ensures
        refusal == if note.author_id == user.0.sub {
            None
        } else {
            Some(Reply::bare(FORBIDDEN))
        },
{
    if note.is_owner(user.0.sub) {
        None
    } else {
        Some(Reply::empty(FORBIDDEN))
    }
}

/// Answers a request to change a note, from what the store made of it.
pub fn update_note(updated: Result<Option<Note>, RepoError>) -> (reply: Reply)
    ensures
        reply == note_response(updated),
{
    match updated {
        Ok(Some(note)) => Reply { status: OK, body: Body::Note(note) },
        Ok(None) => Reply::empty(NOT_FOUND),
        Err(_) => Reply::empty(INTERNAL_SERVER_ERROR),
    }
}

} // verus!
