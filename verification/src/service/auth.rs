//! Signup and login.
//!
//! Both run against an account store that answers on its own terms, so each
//! is split where the store is asked: what is decided before the question and
//! what is made of the answer are functions of their own, and a service over
//! a [`UserRepository`] puts them together.

use std::sync::Arc;
use vstd::prelude::*;
use vstd::string::StringExecFns;
use crate::domain::model::User;
use crate::repository::user::{RepoError, StoreAnswer, UserRepository};
use crate::service::credentials::{is_valid_email, is_valid_password, valid_email, valid_password};
use crate::service::password::{argon2_accepts, hash, verify};

verus! {

/// Why a signup or a login came to nothing.
#[derive(Debug)]
pub enum AuthServiceError {
    /// The password could not be hashed.  An internal failure, not one of the
    /// input.
    HashError,
    /// The account store failed; its error is passed on as it came.
    Repo(RepoError),
    /// The e-mail address does not meet the policy.
    InvalidEmail,
    /// The password does not meet the policy.
    InvalidPassword,
    /// No account with this address, or not this password: which of the two
    /// is not told.
    InvalidCredentials,
}

impl AuthServiceError {
    /// The error in words.
    pub fn message(&self) -> (text: String)
        ensures
            text@ == match *self {
                AuthServiceError::HashError => "password hashing failed"@,
                AuthServiceError::Repo(e) => match e {
                    RepoError::DbError(detail) => "database error: "@ + detail@,
                    RepoError::Conflict => "email already exists"@,
                    RepoError::Internal => "internal error"@,
                },
                AuthServiceError::InvalidEmail => "invalid email format"@,
                AuthServiceError::InvalidPassword => "invalid password"@,
                AuthServiceError::InvalidCredentials => "invalid credentials"@,
            },
    {
        match self {
            AuthServiceError::HashError => String::from_str("password hashing failed"),
            AuthServiceError::Repo(e) => e.message(),
            AuthServiceError::InvalidEmail => String::from_str("invalid email format"),
            AuthServiceError::InvalidPassword => String::from_str("invalid password"),
            AuthServiceError::InvalidCredentials => String::from_str("invalid credentials"),
        }
    }
}

impl From<RepoError> for AuthServiceError {
    fn from(e: RepoError) -> (r: Self) {
        AuthServiceError::Repo(e)
    }
}

impl vstd::std_specs::convert::FromSpecImpl<RepoError> for AuthServiceError {
    open spec fn obeys_from_spec() -> bool {
        true
    }

    open spec fn from_spec(e: RepoError) -> Self {
        AuthServiceError::Repo(e)
    }
}

/// How a signup or a login ends: with an account, without one, or in an
/// error.
pub type AuthOutcome = Result<Option<User>, AuthServiceError>;

/// The policy violation that stops a signup with these credentials, if there
/// is one.  The address is looked at first.
pub open spec fn policy_violation(email: Seq<char>, password: Seq<char>) -> Option<
    AuthServiceError,
> {
    if !valid_email(email) {
        Some(AuthServiceError::InvalidEmail)
    } else if !valid_password(password) {
        Some(AuthServiceError::InvalidPassword)
    } else {
        None
    }
}

/// How a signup ends once the store has answered `created`: the created
/// account, or none where the address is taken, which is no error; a failure
/// of the store is passed on.
pub open spec fn signup_outcome(created: StoreAnswer) -> AuthOutcome {
    match created {
        Ok(account) => Ok(account),
        Err(e) => Err(AuthServiceError::Repo(e)),
    }
}

/// How a login ends once the store has answered `found` and it is known
/// whether the password is that of the account found.
pub open spec fn login_verdict(found: StoreAnswer, password_ok: bool) -> AuthOutcome {
    match found {
        Err(e) => Err(AuthServiceError::Repo(e)),
        Ok(None) => Err(AuthServiceError::InvalidCredentials),
        Ok(Some(account)) => if password_ok {
            Ok(Some(account))
        } else {
            Err(AuthServiceError::InvalidCredentials)
        },
    }
}

/// How a login with `password` ends once the store has answered `found`.
pub open spec fn login_outcome(found: StoreAnswer, password: Seq<char>) -> AuthOutcome {
    login_verdict(
        found,
        found matches Ok(Some(account)) && argon2_accepts(password, account.password_hash@),
    )
}

/// Holds the credentials of a signup against the policy, the address first.
pub fn check_credentials(email: &str, password: &str) -> (r: Result<(), AuthServiceError>)
    ensures
        r == match policy_violation(email@, password@) {
            Some(e) => Err::<(), AuthServiceError>(e),
            None => Ok(()),
        },
{
    if !is_valid_email(email) {
        return Err(AuthServiceError::InvalidEmail);
    }
    if !is_valid_password(password) {
        return Err(AuthServiceError::InvalidPassword);
    }
    Ok(())
}

/// The first half of a signup: checks the credentials and hashes the
/// password, and hands out the hash that the store is to keep.
///
/// Credentials that break the policy are refused before anything is hashed.
/// For credentials that meet it, the result is a hash of `password`, or
/// `HashError` where hashing failed.
pub fn prepare_signup(email: &str, password: &str) -> (r: Result<String, AuthServiceError>)
    ensures
        match policy_violation(email@, password@) {
            Some(e) => r == Err::<String, AuthServiceError>(e),
            None => match r {
                Ok(password_hash) => argon2_accepts(password@, password_hash@),
                Err(e) => e == AuthServiceError::HashError,
            },
        },
{
    match check_credentials(email, password) {
        Ok(_) => match hash(password) {
            Ok(password_hash) => Ok(password_hash),
            Err(_) => Err(AuthServiceError::HashError),
        },
        Err(e) => Err(e),
    }
}

/// The second half of a signup: what becomes of the store's answer.
pub fn finish_signup(created: StoreAnswer) -> (outcome: AuthOutcome)
    ensures
        outcome == signup_outcome(created),
{
    match created {
        Ok(account) => Ok(account),
        Err(e) => Err(AuthServiceError::from(e)),
    }
}

/// Decides a login from the store's answer and from whether the password is
/// that of the account found.
///
/// No account and a wrong password end in the same error.
pub fn decide_login(found: StoreAnswer, password_ok: bool) -> (outcome: AuthOutcome)
    ensures
        outcome == login_verdict(found, password_ok),
{
    match found {
        Err(e) => Err(AuthServiceError::from(e)),
        Ok(None) => Err(AuthServiceError::InvalidCredentials),
        Ok(Some(account)) => {
            if password_ok {
                Ok(Some(account))
            } else {
                Err(AuthServiceError::InvalidCredentials)
            }
        },
    }
}

/// The second half of a login: checks `password` against the hash of the
/// account that the store found, if it found one, and decides.
///
/// A stored hash that is no hash string counts as a wrong password.
pub fn finish_login(found: StoreAnswer, password: &str) -> (outcome: AuthOutcome)
    ensures
        outcome == login_outcome(found, password@),
{
    let password_ok = match &found {
        Ok(Some(account)) => verify(password, account.password_hash.as_str()),
        _ => false,
    };
    decide_login(found, password_ok)
}

/// A login does not tell an address without account from a wrong password:
/// both end in `InvalidCredentials`.
pub proof fn unknown_account_looks_like_wrong_password(account: User, password: Seq<char>)
    requires
        !argon2_accepts(password, account.password_hash@),
    ensures
        login_outcome(Ok(Some(account)), password) == login_outcome(Ok(None), password),
        login_outcome(Ok(None), password) == Err::<Option<User>, AuthServiceError>(
            AuthServiceError::InvalidCredentials,
        ),
{
}

/// Signup and login, as the request handlers see them.
///
/// What an implementation does is its own to say, in `may_signup` and
/// `may_login`; a handler promises of its answer what these say of the
/// outcome.
pub trait AuthService {
    /// `outcome` is one in which a signup with these credentials may end.
    /// An implementation that does not say is held to nothing.
    open spec fn may_signup(
        &self,
        email: Seq<char>,
        password: Seq<char>,
        outcome: AuthOutcome,
    ) -> bool {
        true
    }

    /// `outcome` is one in which a login with these credentials may end.
    /// An implementation that does not say is held to nothing.
    open spec fn may_login(
        &self,
        email: Seq<char>,
        password: Seq<char>,
        outcome: AuthOutcome,
    ) -> bool {
        true
    }

    /// Registers an account: `Ok(Some(account))` once it exists, `Ok(None)`
    /// where the address is taken.
    fn signup(&self, email: &str, password: &str) -> (outcome: AuthOutcome)
        ensures
            self.may_signup(email@, password@, outcome),
    ;

    /// Checks credentials: `Ok(Some(account))` where they are those of an
    /// account.
    fn login(&self, email: &str, password: &str) -> (outcome: AuthOutcome)
        ensures
            self.may_login(email@, password@, outcome),
    ;
}

/// The service over an account store.
pub struct AuthServiceImpl<R: UserRepository> {
    user_repository: Arc<R>,
}

impl<R: UserRepository> AuthServiceImpl<R> {
    /// The store that this service asks.
    pub closed spec fn repository(&self) -> R {
        *self.user_repository
    }

    /// The service that asks `user_repository`.
    pub fn new(user_repository: Arc<R>) -> (service: Self)
        ensures
            service.repository() == *user_repository,
    {
        AuthServiceImpl { user_repository }
    }
}

impl<R: UserRepository> AuthService for AuthServiceImpl<R> {
    /// Credentials that break the policy end in the violation, and the store
    /// is not asked.  For others, unless hashing fails, the store is asked to
    /// create an account with the address as given and a hash of the
    /// password, and its answer decides.
    open spec fn may_signup(
        &self,
        email: Seq<char>,
        password: Seq<char>,
        outcome: AuthOutcome,
    ) -> bool {
        match policy_violation(email, password) {
            Some(e) => outcome == Err::<Option<User>, AuthServiceError>(e),
            None => {
                ||| outcome == Err::<Option<User>, AuthServiceError>(AuthServiceError::HashError)
                ||| exists|password_hash: Seq<char>, created: StoreAnswer|
                    {
                        &&& argon2_accepts(password, password_hash)
                        &&& #[trigger] self.repository().may_create(email, password_hash, created)
                        &&& outcome == signup_outcome(created)
                    }
            },
        }
    }

    /// The store is asked for the account with the address as given, and the
    /// password is checked against what it finds.
    open spec fn may_login(
        &self,
        email: Seq<char>,
        password: Seq<char>,
        outcome: AuthOutcome,
    ) -> bool {
        exists|found: StoreAnswer|
            {
                &&& #[trigger] self.repository().may_find(email, found)
                &&& outcome == login_outcome(found, password)
            }
    }

    fn signup(&self, email: &str, password: &str) -> (outcome: AuthOutcome) {
        let password_hash = match prepare_signup(email, password) {
            Ok(password_hash) => password_hash,
            Err(e) => {
                return Err(e);
            },
        };
        let created = self.user_repository.create_user(email, password_hash.as_str());
        assert(self.repository().may_create(email@, password_hash@, created));
        finish_signup(created)
    }

    fn login(&self, email: &str, password: &str) -> (outcome: AuthOutcome) {
        let found = self.user_repository.find_by_email(email);
        assert(self.repository().may_find(email@, found));
        finish_login(found, password)
    }
}

/// A service at which every signup and every login succeeds, with the account
/// 1.
pub struct MockAuthServiceSuccess;

impl AuthService for MockAuthServiceSuccess {
    open spec fn may_signup(
        &self,
        email: Seq<char>,
        password: Seq<char>,
        outcome: AuthOutcome,
    ) -> bool {
        &&& outcome matches Ok(Some(account))
        &&& account.id == 1
        &&& account.email@ == email
        &&& account.password_hash@ == "x"@
        &&& account.created_at == 0
    }

    open spec fn may_login(
        &self,
        email: Seq<char>,
        password: Seq<char>,
        outcome: AuthOutcome,
    ) -> bool {
        &&& outcome matches Ok(Some(account))
        &&& account.id == 1
        &&& account.email@ == email
        &&& account.password_hash@ == password
        &&& account.created_at == 0
    }

    fn signup(&self, email: &str, _password: &str) -> (outcome: AuthOutcome) {
        Ok(
            Some(
                User {
                    id: 1,
                    email: email.to_owned(),
                    password_hash: "x".to_owned(),
                    created_at: 0,
                },
            ),
        )
    }

    fn login(&self, email: &str, password: &str) -> (outcome: AuthOutcome) {
        Ok(
            Some(
                User {
                    id: 1,
                    email: email.to_owned(),
                    password_hash: password.to_owned(),
                    created_at: 0,
                },
            ),
        )
    }
}

/// A service at which every address is taken and no login finds an account.
pub struct MockAuthServiceConflict;

impl AuthService for MockAuthServiceConflict {
    open spec fn may_signup(
        &self,
        email: Seq<char>,
        password: Seq<char>,
        outcome: AuthOutcome,
    ) -> bool {
        outcome == Ok::<Option<User>, AuthServiceError>(None)
    }

    open spec fn may_login(
        &self,
        email: Seq<char>,
        password: Seq<char>,
        outcome: AuthOutcome,
    ) -> bool {
        outcome == Ok::<Option<User>, AuthServiceError>(None)
    }

    fn signup(&self, _email: &str, _password: &str) -> (outcome: AuthOutcome) {
        Ok(None)
    }

    fn login(&self, _email: &str, _password: &str) -> (outcome: AuthOutcome) {
        Ok(None)
    }
}

} // verus!
