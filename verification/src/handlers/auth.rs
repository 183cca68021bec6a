use vstd::prelude::*;
use crate::handlers::model::{
    Body, LoginInput, LoginOutput, Reply, SignupInput, BAD_REQUEST, CONFLICT, CREATED,
    INTERNAL_SERVER_ERROR, OK, UNAUTHORIZED,
};
use crate::middleware::auth::extractor::AuthenticatedUser;
use crate::middleware::auth::token::{JwtTokenService, TokenError};
use crate::service::auth::{AuthOutcome, AuthService, AuthServiceError};

verus! {

/// The answer to a signup that ended in `outcome`: created, conflict for an
/// address that is taken, a bad request for credentials that break the
/// policy, and an internal error for the rest.
pub open spec fn signup_response(outcome: AuthOutcome) -> Reply {
    match outcome {
        Ok(Some(_)) => Reply::bare(CREATED),
        Ok(None) => Reply::bare(CONFLICT),
        Err(AuthServiceError::InvalidEmail) => Reply::bare(BAD_REQUEST),
        Err(AuthServiceError::InvalidPassword) => Reply::bare(BAD_REQUEST),
        Err(_) => Reply::bare(INTERNAL_SERVER_ERROR),
    }
}

/// Answers a signup that ended in `outcome`.
pub fn signup_reply(outcome: &AuthOutcome) -> (reply: Reply)
    ensures
        reply == signup_response(*outcome),
{
    match outcome {
        Ok(Some(_)) => Reply::empty(CREATED),
        Ok(None) => Reply::empty(CONFLICT),
        Err(AuthServiceError::InvalidEmail) => Reply::empty(BAD_REQUEST),
        Err(AuthServiceError::InvalidPassword) => Reply::empty(BAD_REQUEST),
        Err(_) => Reply::empty(INTERNAL_SERVER_ERROR),
    }
}

/// Handles a signup request: asks the service and answers by its outcome.
pub fn signup<S: AuthService>(auth_service: &S, payload: &SignupInput) -> (reply: Reply)
    ensures
        exists|outcome: AuthOutcome| #[trigger]
            auth_service.may_signup(payload.email@, payload.password@, outcome) && reply
                == signup_response(outcome),
{
    let outcome = auth_service.signup(payload.email.as_str(), payload.password.as_str());
    signup_reply(&outcome)
}

/// Answers a request for the caller's own identity: the claim, as it is.
pub fn me(user: &AuthenticatedUser) -> (reply: Reply)
    ensures
        reply == (Reply { status: OK, body: Body::Claim(user.0) }),
{
    Reply { status: OK, body: Body::Claim(user.0) }
}

/// The answer to a login for which the token service came back with
/// `generated`: the token, or an internal error where there is none.
pub open spec fn token_response(generated: Result<String, TokenError>) -> Reply {
    match generated {
        Ok(token) => Reply { status: OK, body: Body::Token(LoginOutput { token }) },
        Err(_) => Reply::bare(INTERNAL_SERVER_ERROR),
    }
}

/// Answers a login whose credentials were right, from what the token service
/// came back with.
pub fn token_reply(generated: Result<String, TokenError>) -> (reply: Reply)
    ensures
        reply == token_response(generated),
{
    match generated {
        Ok(token) => Reply { status: OK, body: Body::Token(LoginOutput { token }) },
        Err(_) => Reply::empty(INTERNAL_SERVER_ERROR),
    }
}

/// `reply` is an answer to a login that ended in `outcome`, where `jwt` signs
/// the tokens.
///
/// An account gets a token of its own, or an internal error where none could
/// be signed.  Wrong credentials are unauthorized.  Everything else, a login
/// that ends without account and without error among it, is an internal
/// error.
pub open spec fn login_response(jwt: JwtTokenService, outcome: AuthOutcome, reply: Reply) -> bool {
    match outcome {
        Ok(Some(account)) => {
            ||| reply == Reply::bare(INTERNAL_SERVER_ERROR)
            ||| {
                &&& reply.status == OK
                &&& reply.body matches Body::Token(output)
                &&& jwt.issues(account.id, output.token@)
            }
        },
        Err(AuthServiceError::InvalidCredentials) => reply == Reply::bare(UNAUTHORIZED),
        _ => reply == Reply::bare(INTERNAL_SERVER_ERROR),
    }
}

/// Answers a login that ended in `outcome`, signing a token for the account
/// where there is one.
pub fn login_reply(jwt: &JwtTokenService, outcome: &AuthOutcome) -> (reply: Reply)
    ensures
        login_response(*jwt, *outcome, reply),
{
    match outcome {
        Ok(Some(account)) => token_reply(jwt.generate(account.id)),
        Err(AuthServiceError::InvalidCredentials) => Reply::empty(UNAUTHORIZED),
        _ => Reply::empty(INTERNAL_SERVER_ERROR),
    }
}

/// Handles a login request: asks the service and answers by its outcome.
pub fn login<S: AuthService>(
    auth_service: &S,
    jwt: &JwtTokenService,
    payload: &LoginInput,
) -> (reply: Reply)
    ensures
        exists|outcome: AuthOutcome| #[trigger]
            auth_service.may_login(payload.email@, payload.password@, outcome) && login_response(
                *jwt,
                outcome,
                reply,
            ),
{
    let outcome = auth_service.login(payload.email.as_str(), payload.password.as_str());
    login_reply(jwt, &outcome)
}

} // verus!
