use vstd::prelude::*;
use vstd::string::{StrSliceExecFns, StringExecFns};
use crate::handlers::model::UNAUTHORIZED;
use crate::middleware::auth::model::JWTClaim;
use crate::middleware::auth::token::{JwtTokenService, TokenError};

verus! {

/// The identity that a request acts under: the claim of its bearer token.
///
/// Handlers take the claim's subject as the acting account.  Whether that
/// account may do what is asked is theirs to decide.
#[derive(Debug, Clone, Copy, PartialEq, Eq, Structural)]
pub struct AuthenticatedUser(pub JWTClaim);

/// Why a request has no identity.  Each of these is answered as
/// unauthorized.
#[derive(Debug, Clone, Copy, PartialEq, Eq, Structural)]
pub enum Unauthorized {
    /// No token service is set up.
    MissingService,
    /// The request has no authorization header.
    MissingHeader,
    /// The header does not begin with the bearer scheme.
    MissingScheme,
    /// The header names the bearer scheme and ends there.
    EmptyToken,
    /// The token was refused.
    InvalidToken,
}

impl Unauthorized {
    /// The status that answers the request: unauthorized, whatever the
    /// reason.
    pub fn status(&self) -> (status: u16)
        ensures
            status == UNAUTHORIZED,
    {
        UNAUTHORIZED
    }

    /// The rejection in words.
    pub fn message(&self) -> (text: String)
        ensures
            text@ == match *self {
                Unauthorized::MissingService => "missing jwt"@,
                Unauthorized::MissingHeader => "missing header"@,
                Unauthorized::MissingScheme => "invalid header"@,
                Unauthorized::EmptyToken => "invalid header"@,
                Unauthorized::InvalidToken => "invalid token"@,
            },
    {
        match self {
            Unauthorized::MissingService => String::from_str("missing jwt"),
            Unauthorized::MissingHeader => String::from_str("missing header"),
            Unauthorized::MissingScheme => String::from_str("invalid header"),
            Unauthorized::EmptyToken => String::from_str("invalid header"),
            Unauthorized::InvalidToken => String::from_str("invalid token"),
        }
    }
}

/// What a bearer header begins with: the scheme and one space.
pub open spec fn bearer_prefix() -> Seq<char> {
    seq!['B', 'e', 'a', 'r', 'e', 'r', ' ']
}

/// What follows the bearer prefix in an authorization header, if the header
/// begins with it.
pub open spec fn bearer_token(header: Seq<char>) -> Option<Seq<char>> {
    if bearer_prefix().is_prefix_of(header) {
        Some(header.skip(bearer_prefix().len() as int))
    } else {
        None
    }
}

/// Takes the bearer prefix off an authorization header.
pub fn strip_bearer(header: &str) -> (token: Option<&str>)
    ensures
        match token {
            Some(token) => bearer_token(header@) == Some(token@),
            None => bearer_token(header@) is None,
        },
{
    let n: usize = header.unicode_len();
    if n < 7 {
        return None;
    }
    if header.get_char(0) != 'B' || header.get_char(1) != 'e' || header.get_char(2) != 'a'
        || header.get_char(3) != 'r' || header.get_char(4) != 'e' || header.get_char(5) != 'r'
        || header.get_char(6) != ' ' {
        return None;
    }
    Some(header.substring_char(7, n))
}

/// The identity of a request whose token the token service has judged.
pub fn resolve(verified: Result<JWTClaim, TokenError>) -> (r: Result<
    AuthenticatedUser,
    Unauthorized,
>)
    ensures
        r == match verified {
            Ok(claim) => Ok::<AuthenticatedUser, Unauthorized>(AuthenticatedUser(claim)),
            Err(_) => Err(Unauthorized::InvalidToken),
        },
{
    match verified {
        Ok(claim) => Ok(AuthenticatedUser(claim)),
        Err(_) => Err(Unauthorized::InvalidToken),
    }
}

impl AuthenticatedUser {
    /// Resolves the identity of a request from the token service that is set
    /// up, if one is, and the value of the request's authorization header, if
    /// it has one.
    ///
    /// The header must hold a bearer token: the scheme, one space, and a token
    /// that is not empty.  The token is judged by the token service alone;
    /// the identity is exactly the claim that the service hands out.
    pub fn from_request(jwt: Option<&JwtTokenService>, authorization: Option<&str>) -> (r: Result<
        Self,
        Unauthorized,
    >)
        ensures
            jwt is None ==> r == Err::<Self, Unauthorized>(Unauthorized::MissingService),
            jwt is Some && authorization is None ==> r == Err::<Self, Unauthorized>(
                Unauthorized::MissingHeader,
            ),
            jwt is Some && authorization is Some ==> match bearer_token(authorization->0@) {
                None => r == Err::<Self, Unauthorized>(Unauthorized::MissingScheme),
                Some(token) => if token.len() == 0 {
                    r == Err::<Self, Unauthorized>(Unauthorized::EmptyToken)
                } else {
                    match r {
                        Ok(user) => jwt->0.carries(token, user.0),
                        Err(e) => e == Unauthorized::InvalidToken,
                    }
                },
            },
    {
        let Some(jwt) = jwt else {
            return Err(Unauthorized::MissingService);
        };
        let Some(authorization) = authorization else {
            return Err(Unauthorized::MissingHeader);
        };
        let Some(token) = strip_bearer(authorization) else {
            return Err(Unauthorized::MissingScheme);
        };
        if token.unicode_len() == 0 {
            return Err(Unauthorized::EmptyToken);
        }
        resolve(jwt.verify(token))
    }
}

} // verus!
