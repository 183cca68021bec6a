use vstd::prelude::*;
use vstd::slice::slice_to_vec;
use vstd::string::{StringExecFns, StringSliceAdditionalSpecFns};
use crate::middleware::auth::model::JWTClaim;
use crate::decimal::{number_of, parse_decimal};

verus! {

/// Why a token could not be made or taken, or the service not be set up.
#[derive(Debug, Clone, Copy, PartialEq, Eq, Structural)]
pub enum TokenError {
    /// No token could be signed.
    Encode,
    /// The token is malformed, not signed with this service's secret, or
    /// expired.
    Decode,
    /// No secret was configured.
    MissingSecret,
    /// The configured time-to-live is not a number of seconds.
    InvalidExpiration,
}

impl TokenError {
    /// The error in words.
    pub fn message(&self) -> (text: String)
        ensures
            text@ == match *self {
                TokenError::Encode => "encoding error"@,
                TokenError::Decode => "decoding error"@,
                TokenError::MissingSecret => "missing JWT_SECRET env"@,
                TokenError::InvalidExpiration => "invalid JWT_EXP_SECS env"@,
            },
    {
        match self {
            TokenError::Encode => String::from_str("encoding error"),
            TokenError::Decode => String::from_str("decoding error"),
            TokenError::MissingSecret => String::from_str("missing JWT_SECRET env"),
            TokenError::InvalidExpiration => String::from_str("invalid JWT_EXP_SECS env"),
        }
    }
}

/// The time-to-live of a token, in seconds, where none is configured.
pub const DEFAULT_EXPIRATION_SECS: u64 = 3600;

/// The members `sub`, `iat` and `exp` of a token's claim set, each present
/// only if the token holds it as an integer that fits 64 signed bits.
pub type ClaimFields = (Option<i64>, Option<i64>, Option<i64>);

/// The error type of the `jsonwebtoken` crate, carried from its calls to the
/// place where it becomes a [`TokenError`].
#[verifier::external_type_specification]
#[verifier::external_body]
pub struct ExJwtError(jsonwebtoken::errors::Error);

/// What `jsonwebtoken::encode` makes of a claim set `{sub, iat, exp}` under the
/// default header (HMAC with SHA-256) and the key of `secret`: the token, or
/// nothing where it fails.
pub uninterp spec fn hs256_token(secret: Seq<u8>, sub: i64, iat: i64, exp: i64) -> Option<Seq<char>>;

/// What `jsonwebtoken::decode` reads out of `token` whenever it accepts it
/// under the key of `secret`: the members `sub`, `iat` and `exp` of the claim
/// set.  Whether it accepts the token depends on the clock as well, so this
/// says nothing of that.
pub uninterp spec fn hs256_claims(secret: Seq<u8>, token: Seq<char>) -> ClaimFields;

/// The fields of a complete claim.
pub open spec fn fields_of(claim: JWTClaim) -> ClaimFields {
    (Some(claim.sub), Some(claim.iat), Some(claim.exp))
}

/// Signs `claim` with `jsonwebtoken::encode`, under `Header::default()` and
/// `EncodingKey::from_secret(secret)`.  The claim set is handed over as a JSON
/// object with the members `sub`, `iat`, `exp`, in this order.
///
/// Believed, not proved: the call is a function of the secret and the claim
/// ([`hs256_token`]); and a token that it returns for an expiry that is not
/// negative is one from which `jsonwebtoken::decode`, under the same secret,
/// reads the same three members back ([`hs256_claims`]).
#[verifier::external_body]
fn encode_hs256(secret: &[u8], claim: &JWTClaim) -> (r: Result<String, jsonwebtoken::errors::Error>)
    ensures
        match r {
            Ok(token) => hs256_token(secret@, claim.sub, claim.iat, claim.exp) == Some(token@),
            Err(_) => hs256_token(secret@, claim.sub, claim.iat, claim.exp) is None,
        },
        r is Ok && claim.exp >= 0 ==> hs256_claims(secret@, r->Ok_0@) == fields_of(*claim),
{
    let mut payload = serde_json::Map::new();
    payload.insert("sub".to_string(), serde_json::Value::from(claim.sub));
    payload.insert("iat".to_string(), serde_json::Value::from(claim.iat));
    payload.insert("exp".to_string(), serde_json::Value::from(claim.exp));
    let key = jsonwebtoken::EncodingKey::from_secret(secret);
    jsonwebtoken::encode(&jsonwebtoken::Header::default(), &payload, &key)
}

/// Checks `token` with `jsonwebtoken::decode`, under `Validation::default()`
/// with its expiry check switched on and `DecodingKey::from_secret(secret)`,
/// and picks the members `sub`, `iat`, `exp` out of the claim set.
///
/// Believed, not proved: what is read out of an accepted token is a function
/// of the secret and the token ([`hs256_claims`]).  Nothing is said of when a
/// token is refused: that depends on the clock too.  The signature library
/// reads the system clock itself, and counts on one that is set to a time
/// after the Unix epoch.
#[verifier::external_body]
fn decode_hs256(secret: &[u8], token: &str) -> (r: Result<ClaimFields, jsonwebtoken::errors::Error>)
    ensures
        r matches Ok(fields) ==> fields == hs256_claims(secret@, token@),
{
    let mut validation = jsonwebtoken::Validation::default();
    validation.validate_exp = true;
    let key = jsonwebtoken::DecodingKey::from_secret(secret);
    let data = jsonwebtoken::decode::<serde_json::Value>(token, &key, &validation)?;
    let claims = data.claims;
    Ok((claims["sub"].as_i64(), claims["iat"].as_i64(), claims["exp"].as_i64()))
}

/// Reads the clock, `std::time::SystemTime::now`, as whole seconds since the
/// Unix epoch (`duration_since(UNIX_EPOCH)`, `as_secs`); `None` for a clock
/// set before the epoch.  Nothing is promised of the value.
#[verifier::external_body]
fn clock_seconds() -> Option<u64> {
    match std::time::SystemTime::now().duration_since(std::time::UNIX_EPOCH) {
        Ok(since_epoch) => Some(since_epoch.as_secs()),
        Err(_) => None,
    }
}

/// The time, in seconds since the Unix epoch.  A clock set before the epoch
/// reads as 0.
fn unix_seconds() -> u64 {
    epoch_seconds(clock_seconds())
}

/// The time that a reading of the clock stands for: the seconds that were
/// read, and 0 where the clock is set before the Unix epoch and there is no
/// reading.
pub fn epoch_seconds(reading: Option<u64>) -> (seconds: u64)
    ensures
        seconds == match reading {
            Some(read) => read,
            None => 0,
        },
{
    match reading {
        Some(read) => read,
        None => 0,
    }
}

/// The claim that a token issued at `now` for `user_id` carries when it lives
/// `ttl` seconds; none where the expiry does not fit the claim.
pub open spec fn claim_at(user_id: i64, ttl: u64, now: u64) -> Option<JWTClaim> {
    if now + ttl <= i64::MAX {
        Some(JWTClaim { sub: user_id, iat: now as i64, exp: (now + ttl) as i64 })
    } else {
        None
    }
}

/// What becomes of the claim fields read out of a token at the time `now`:
/// the claim, if all three are there and the expiry has not passed.
pub open spec fn accepted(fields: ClaimFields, now: u64) -> Result<JWTClaim, TokenError> {
    match fields {
        (Some(sub), Some(iat), Some(exp)) => if exp < now {
            Err(TokenError::Decode)
        } else {
            Ok(JWTClaim { sub, iat, exp })
        },
        _ => Err(TokenError::Decode),
    }
}

/// Decides on the claim fields read out of a token whose signature holds: a
/// field that is missing, or an expiry before `now`, refuses the token.
///
/// This check is made whatever the signature library has checked itself.
pub fn accept_claims(fields: ClaimFields, now: u64) -> (r: Result<JWTClaim, TokenError>)
    ensures
        r == accepted(fields, now),
{
    match fields {
        (Some(sub), Some(iat), Some(exp)) => {
            if exp < 0 || (exp as u64) < now {
                Err(TokenError::Decode)
            } else {
                Ok(JWTClaim { sub, iat, exp })
            }
        },
        _ => Err(TokenError::Decode),
    }
}

/// A claim whose expiry has passed is refused, however well the token that
/// holds it is formed and signed.
pub proof fn expired_claim_is_refused(claim: JWTClaim, now: u64)
    requires
        claim.exp < now,
    ensures
        accepted(fields_of(claim), now) == Err::<JWTClaim, TokenError>(TokenError::Decode),
{
}

/// Signs and checks identity tokens with one shared secret.
///
/// The secret and the time-to-live are fixed when the service is made; the
/// secret cannot be read back.
pub struct JwtTokenService {
    secret: Vec<u8>,
    expiration_secs: u64,
}

impl JwtTokenService {
    /// The secret that tokens are signed with.
    pub closed spec fn secret(&self) -> Seq<u8> {
        self.secret@
    }

    /// The number of seconds that a token lives.
    pub closed spec fn expiration_secs(&self) -> u64 {
        self.expiration_secs
    }

    /// `token`, under this service's secret, holds exactly `claim`.
    pub open spec fn carries(&self, token: Seq<char>, claim: JWTClaim) -> bool {
        hs256_claims(self.secret(), token) == fields_of(claim)
    }

    /// The token that this service signs for `user_id` at the time `now`, if
    /// any.
    pub open spec fn token_at(&self, user_id: i64, now: u64) -> Option<Seq<char>> {
        match claim_at(user_id, self.expiration_secs(), now) {
            Some(claim) => hs256_token(self.secret(), claim.sub, claim.iat, claim.exp),
            None => None,
        }
    }

    /// `token` is one that this service signs for `user_id` at some time: it
    /// holds a claim for `user_id` that expires `expiration_secs` after it was
    /// issued.
    pub open spec fn issues(&self, user_id: i64, token: Seq<char>) -> bool {
        exists|now: u64| #[trigger]
            self.token_at(user_id, now) == Some(token) && self.carries(
                token,
                claim_at(user_id, self.expiration_secs(), now)->0,
            )
    }

    /// A service that signs with `secret` tokens that live `expiration_secs`
    /// seconds.
    pub fn from_secret(secret: &[u8], expiration_secs: u64) -> (service: Self)
        ensures
            service.secret() == secret@,
            service.expiration_secs() == expiration_secs,
    {
        JwtTokenService { secret: slice_to_vec(secret), expiration_secs }
    }

    /// A service set up from what the environment holds: the value of
    /// `JWT_SECRET` and that of `JWT_EXP_SECS`, each `None` where it is not
    /// set.
    ///
    /// Without a secret there is no service.  Without a time-to-live tokens
    /// live [`DEFAULT_EXPIRATION_SECS`]; one that is set must be a number of
    /// seconds.
    pub fn from_env(secret: Option<&str>, expiration_secs: Option<&str>) -> (r: Result<
        Self,
        TokenError,
    >)
        ensures
            match r {
                Ok(service) => {
                    &&& secret is Some
                    &&& service.secret() == secret->0.spec_bytes()
                    &&& match expiration_secs {
                        Some(text) => number_of(text@) == Some(service.expiration_secs()),
                        None => service.expiration_secs() == DEFAULT_EXPIRATION_SECS,
                    }
                },
                Err(e) => if secret is None {
                    e == TokenError::MissingSecret
                } else {
                    &&& e == TokenError::InvalidExpiration
                    &&& expiration_secs is Some
                    &&& number_of(expiration_secs->0@) is None
                },
            },
    {
        let Some(secret) = secret else {
            return Err(TokenError::MissingSecret);
        };
        let seconds = match expiration_secs {
            Some(text) => match parse_decimal(text) {
                Some(seconds) => seconds,
                None => {
                    return Err(TokenError::InvalidExpiration);
                },
            },
            None => DEFAULT_EXPIRATION_SECS,
        };
        Ok(Self::from_secret(secret.as_bytes(), seconds))
    }

    /// Signs a token for `user_id`, issued at `now` (seconds since the Unix
    /// epoch) and expiring `expiration_secs` later.
    ///
    /// Fails with `Encode` where that expiry does not fit the claim, or where
    /// signing fails.
    pub fn generate_at(&self, user_id: i64, now: u64) -> (r: Result<String, TokenError>)
        ensures
            match r {
                Ok(token) => {
                    &&& self.token_at(user_id, now) == Some(token@)
                    &&& self.carries(token@, claim_at(user_id, self.expiration_secs(), now)->0)
                },
                Err(e) => e == TokenError::Encode && self.token_at(user_id, now) is None,
            },
    {
        if now > i64::MAX as u64 || self.expiration_secs > i64::MAX as u64 - now {
            return Err(TokenError::Encode);
        }
        let claim = JWTClaim {
            sub: user_id,
            iat: now as i64,
            exp: (now + self.expiration_secs) as i64,
        };
        match encode_hs256(self.secret.as_slice(), &claim) {
            Ok(token) => Ok(token),
            Err(_) => Err(TokenError::Encode),
        }
    }

    /// Signs a token for `user_id`, issued now.
    ///
    /// The time is read from the system clock, so all that is known of the
    /// token is that it was issued for `user_id` at some time.
    pub fn generate(&self, user_id: i64) -> (r: Result<String, TokenError>)
        ensures
            match r {
                Ok(token) => self.issues(user_id, token@),
                Err(e) => e == TokenError::Encode,
            },
    {
        self.generate_at(user_id, unix_seconds())
    }

    /// Checks `token` against the secret and against the time `now`.
    ///
    /// The signature library decides whether the token is well formed and
    /// signed with this service's secret, by its own clock.  Whatever it
    /// decides, a token whose claim set lacks a field, or whose expiry is
    /// before `now`, is refused here.
    pub fn verify_at(&self, token: &str, now: u64) -> (r: Result<JWTClaim, TokenError>)
        ensures
            match r {
                Ok(claim) => self.carries(token@, claim) && claim.exp >= now,
                Err(e) => e == TokenError::Decode,
            },
            accepted(hs256_claims(self.secret(), token@), now) is Err ==> r == Err::<
                JWTClaim,
                TokenError,
            >(TokenError::Decode),
    {
        match decode_hs256(self.secret.as_slice(), token) {
            Ok(fields) => accept_claims(fields, now),
            Err(_) => Err(TokenError::Decode),
        }
    }

    /// Checks `token` against the secret and the system clock, and hands out
    /// the claim that it holds.
    pub fn verify(&self, token: &str) -> (r: Result<JWTClaim, TokenError>)
        ensures
            match r {
                Ok(claim) => self.carries(token@, claim),
                Err(e) => e == TokenError::Decode,
            },
    {
        self.verify_at(token, unix_seconds())
    }
}

/// A token that a service has issued for an account, and that the same
/// service then takes, yields a claim for that account whose expiry lies the
/// service's time-to-live after its issue.
pub proof fn issued_token_yields_issued_claim(
    service: JwtTokenService,
    user_id: i64,
    token: Seq<char>,
    claim: JWTClaim,
)
    requires
        service.issues(user_id, token),
        service.carries(token, claim),
    ensures
        claim.sub == user_id,
        claim.exp - claim.iat == service.expiration_secs(),
{
}

} // verus!
