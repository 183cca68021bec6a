use vstd::prelude::*;
use vstd::string::StringExecFns;
use crate::domain::model::User;
use crate::text::same_text;

verus! {

/// The name of the unique constraint on the e-mail address of an account.
pub const USERS_EMAIL_UNIQUE_CONSTRAINT: &'static str = "users.email";

/// Why the account store could not answer.
#[derive(Debug)]
pub enum RepoError {
    /// The database failed; the text is the driver's message.
    DbError(String),
    /// The e-mail address is already registered.
    Conflict,
    /// Anything else.
    Internal,
}

impl RepoError {
    /// The error in words.
    pub fn message(&self) -> (text: String)
        ensures
            text@ == match *self {
                RepoError::DbError(detail) => "database error: "@ + detail@,
                RepoError::Conflict => "email already exists"@,
                RepoError::Internal => "internal error"@,
            },
    {
        match self {
            RepoError::DbError(detail) => String::from_str("database error: ").concat(
                detail.as_str(),
            ),
            RepoError::Conflict => String::from_str("email already exists"),
            RepoError::Internal => String::from_str("internal error"),
        }
    }
}

/// What a store answers: an account, none, or a failure.
pub type StoreAnswer = Result<Option<User>, RepoError>;

/// The account store, as the services use it.
///
/// E-mail addresses are unique in a store, and it is the store that sees to
/// it: `create_user` answers `Ok(None)` for an address that is taken, and no
/// caller looks the address up first.  How a store answers is its own to say,
/// in `may_create` and `may_find`; a service promises of its result what
/// these say of the answer.
pub trait UserRepository {
    /// `answer` is one that this store may give when asked to create an
    /// account with this address and this password hash.  A store that does
    /// not say is held to nothing.
    open spec fn may_create(
        &self,
        email: Seq<char>,
        password_hash: Seq<char>,
        answer: StoreAnswer,
    ) -> bool {
        true
    }

    /// `answer` is one that this store may give when asked for the account
    /// with this address.  A store that does not say is held to nothing.
    open spec fn may_find(&self, email: Seq<char>, answer: StoreAnswer) -> bool {
        true
    }

    /// Creates an account: `Ok(Some(account))` once it is stored, `Ok(None)`
    /// where the address is taken.
    fn create_user(&self, email: &str, password_hash: &str) -> (answer: StoreAnswer)
        ensures
            self.may_create(email@, password_hash@, answer),
    ;

    /// Looks an account up by its address: `Ok(None)` where there is none.
    fn find_by_email(&self, email: &str) -> (answer: StoreAnswer)
        ensures
            self.may_find(email@, answer),
    ;
}

/// A failure that the database itself reported, as far as a store reads it.
#[derive(Debug)]
pub struct DatabaseFailure {
    /// A unique constraint refused the row.
    pub unique_violation: bool,
    /// The constraint that the database named, if it named one.
    pub constraint: Option<String>,
}

/// Why an insert failed.
#[derive(Debug)]
pub struct InsertFailure {
    /// What the database reported; `None` where the failure lies elsewhere
    /// (the connection, the driver, the row's shape).
    pub database: Option<DatabaseFailure>,
    /// The driver's message.
    pub message: String,
}

/// The failure says that the e-mail address is taken: the database refused
/// the row for the unique constraint on the address.
pub open spec fn email_taken(failure: InsertFailure) -> bool {
    &&& failure.database matches Some(database)
    &&& database.unique_violation
    &&& database.constraint matches Some(name)
    &&& name@ == USERS_EMAIL_UNIQUE_CONSTRAINT@
}

/// The answer of a store whose insert ended as `inserted`.
pub open spec fn creation_answer(inserted: Result<User, InsertFailure>) -> StoreAnswer {
    match inserted {
        Ok(user) => Ok(Some(user)),
        Err(failure) => if email_taken(failure) {
            Ok(None)
        } else {
            Err(RepoError::DbError(failure.message))
        },
    }
}

/// Turns the outcome of inserting an account into the store's answer.
///
/// A taken address is no error: it is the answer `Ok(None)`.  Every other
/// failure is passed on as it came.
pub fn answer_creation(inserted: Result<User, InsertFailure>) -> (answer: StoreAnswer)
    ensures
        answer == creation_answer(inserted),
{
    match inserted {
        Ok(user) => Ok(Some(user)),
        Err(failure) => {
            let taken = match &failure.database {
                Some(database) => database.unique_violation && match &database.constraint {
                    Some(name) => same_text(name.as_str(), USERS_EMAIL_UNIQUE_CONSTRAINT),
                    None => false,
                },
                None => false,
            };
            if taken {
                Ok(None)
            } else {
                Err(RepoError::DbError(failure.message))
            }
        },
    }
}

/// Turns the outcome of looking an account up into the store's answer: what
/// was found, or the driver's message as a database error.
pub fn answer_lookup(found: Result<Option<User>, String>) -> (answer: StoreAnswer)
    ensures
        answer == match found {
            Ok(account) => Ok::<Option<User>, RepoError>(account),
            Err(message) => Err(RepoError::DbError(message)),
        },
{
    match found {
        Ok(account) => Ok(account),
        Err(message) => Err(RepoError::DbError(message)),
    }
}

/// A store with room for everyone: it creates every account, under the
/// identifier 1, and finds an account under every address.
pub struct MockRepoSuccess;

impl UserRepository for MockRepoSuccess {
    open spec fn may_create(
        &self,
        email: Seq<char>,
        password_hash: Seq<char>,
        answer: StoreAnswer,
    ) -> bool {
        &&& answer matches Ok(Some(user))
        &&& user.id == 1
        &&& user.email@ == email
        &&& user.password_hash@ == password_hash
        &&& user.created_at == 0
    }

    open spec fn may_find(&self, email: Seq<char>, answer: StoreAnswer) -> bool {
        &&& answer matches Ok(Some(user))
        &&& user.id == 1
        &&& user.email@ == email
        &&& user.password_hash@ == "x"@
        &&& user.created_at == 0
    }

    fn create_user(&self, email: &str, password_hash: &str) -> (answer: StoreAnswer) {
        Ok(
            Some(
                User {
                    id: 1,
                    email: email.to_owned(),
                    password_hash: password_hash.to_owned(),
                    created_at: 0,
                },
            ),
        )
    }

    fn find_by_email(&self, email: &str) -> (answer: StoreAnswer) {
        Ok(
            Some(
                User {
                    id: 1,
                    email: email.to_owned(),
                    password_hash: "x".to_owned(),
                    created_at: 0,
                },
            ),
        )
    }
}

/// A store in which every address is taken and no account is found.
pub struct MockRepoConflict;

impl UserRepository for MockRepoConflict {
    open spec fn may_create(
        &self,
        email: Seq<char>,
        password_hash: Seq<char>,
        answer: StoreAnswer,
    ) -> bool {
        answer == Ok::<Option<User>, RepoError>(None)
    }

    open spec fn may_find(&self, email: Seq<char>, answer: StoreAnswer) -> bool {
        answer == Ok::<Option<User>, RepoError>(None)
    }

    fn create_user(&self, _email: &str, _password_hash: &str) -> (answer: StoreAnswer) {
        Ok(None)
    }

    fn find_by_email(&self, _email: &str) -> (answer: StoreAnswer) {
        Ok(None)
    }
}

/// A store that holds one account: it finds it under its address and hands
/// it out for every account that is to be created.
pub struct MockRepoWithUser {
    pub user: User,
}

impl UserRepository for MockRepoWithUser {
    open spec fn may_create(
        &self,
        email: Seq<char>,
        password_hash: Seq<char>,
        answer: StoreAnswer,
    ) -> bool {
        answer == Ok::<Option<User>, RepoError>(Some(self.user))
    }

    open spec fn may_find(&self, email: Seq<char>, answer: StoreAnswer) -> bool {
        answer == if self.user.email@ == email {
            Ok::<Option<User>, RepoError>(Some(self.user))
        } else {
            Ok(None)
        }
    }

    fn create_user(&self, _email: &str, _password_hash: &str) -> (answer: StoreAnswer) {
        Ok(Some(self.user.clone()))
    }

    fn find_by_email(&self, email: &str) -> (answer: StoreAnswer) {
        if same_text(self.user.email.as_str(), email) {
            Ok(Some(self.user.clone()))
        } else {
            Ok(None)
        }
    }
}

} // verus!
