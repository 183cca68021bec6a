use vstd::prelude::*;

verus! {

/// An identity claim: who (`sub`, an account identifier), since when (`iat`)
/// and until when (`exp`), both in seconds since the Unix epoch.
///
/// A claim is never stored.  It is signed into a token at login and read
/// back from the token on each request; whoever holds the token holds the
/// claim until `exp` has passed.
#[derive(Debug, Clone, Copy, PartialEq, Eq, Structural)]
pub struct JWTClaim {
    pub sub: i64,
    pub iat: i64,
    pub exp: i64,
}

} // verus!
