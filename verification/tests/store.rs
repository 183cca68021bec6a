use std::sync::{Arc, Mutex};

use memo_app::domain::model::User;
use memo_app::repository::user::{
    answer_creation, answer_lookup, DatabaseFailure, InsertFailure, MockRepoConflict, MockRepoSuccess,
    MockRepoWithUser, RepoError, UserRepository, USERS_EMAIL_UNIQUE_CONSTRAINT,
};
use memo_app::service::auth::{AuthService, AuthServiceError, AuthServiceImpl};
use memo_app::text::same_text;

/// A store in memory, with a unique constraint on the address.
struct MemoryStore {
    users: Mutex<Vec<User>>,
}

impl MemoryStore {
    fn new() -> Self {
        MemoryStore { users: Mutex::new(Vec::new()) }
    }

    fn insert(&self, email: &str, password_hash: &str) -> Result<User, InsertFailure> {
        let mut users = self.users.lock().unwrap();
        if users.iter().any(|u| u.email == email) {
            return Err(InsertFailure {
                database: Some(DatabaseFailure {
                    unique_violation: true,
                    constraint: Some("users.email".to_string()),
                }),
                message: "UNIQUE constraint failed: users.email".to_string(),
            });
        }
        let user = User {
            id: users.len() as i64 + 1,
            email: email.to_string(),
            password_hash: password_hash.to_string(),
            created_at: 1_700_000_000,
        };
        users.push(user.clone());
        Ok(user)
    }
}

impl UserRepository for MemoryStore {
    fn create_user(&self, email: &str, password_hash: &str) -> Result<Option<User>, RepoError> {
        answer_creation(self.insert(email, password_hash))
    }

    fn find_by_email(&self, email: &str) -> Result<Option<User>, RepoError> {
        Ok(self.users.lock().unwrap().iter().find(|u| u.email == email).cloned())
    }
}

#[test]
fn signup_twice_with_one_address_is_created_then_conflict() {
    let service = AuthServiceImpl::new(Arc::new(MemoryStore::new()));

    let first = service.signup("a@x.com", "password123");
    let account = first.expect("no error").expect("created");
    assert_eq!(account.email, "a@x.com");

    let second = service.signup("a@x.com", "password123");
    assert!(matches!(second, Ok(None)));
    let second = service.signup("a@x.com", "another456");
    assert!(matches!(second, Ok(None)));

    // Addresses are compared as they are written.
    let third = service.signup("A@x.com", "password123");
    assert!(matches!(third, Ok(Some(u)) if u.id == 2));
}

#[test]
fn login_after_signup() {
    let service = AuthServiceImpl::new(Arc::new(MemoryStore::new()));
    let created = service.signup("a@x.com", "password123").unwrap().unwrap();

    let found = service.login("a@x.com", "password123").unwrap().unwrap();
    assert_eq!(found.id, created.id);
    assert_eq!(found.email, "a@x.com");

    let wrong = service.login("a@x.com", "password124");
    let unknown = service.login("b@x.com", "password123");
    assert!(matches!(wrong, Err(AuthServiceError::InvalidCredentials)));
    assert!(matches!(unknown, Err(AuthServiceError::InvalidCredentials)));
    assert_eq!(wrong.unwrap_err().message(), unknown.unwrap_err().message());
}

#[test]
fn login_writes_nothing() {
    let store = Arc::new(MemoryStore::new());
    let service = AuthServiceImpl::new(store.clone());
    service.signup("a@x.com", "password123").unwrap();
    let _ = service.login("a@x.com", "password123");
    let _ = service.login("b@x.com", "password123");
    assert_eq!(store.users.lock().unwrap().len(), 1);
}

#[test]
fn refused_signups_write_nothing() {
    let store = Arc::new(MemoryStore::new());
    let service = AuthServiceImpl::new(store.clone());
    let _ = service.signup("a@x", "password123");
    let _ = service.signup("a@x.com", "password");
    assert_eq!(store.users.lock().unwrap().len(), 0);
}

fn failure(unique_violation: bool, constraint: Option<&str>) -> InsertFailure {
    InsertFailure {
        database: Some(DatabaseFailure {
            unique_violation,
            constraint: constraint.map(|name| name.to_string()),
        }),
        message: "failed".to_string(),
    }
}

#[test]
fn only_the_unique_constraint_on_the_address_is_a_conflict() {
    assert_eq!(USERS_EMAIL_UNIQUE_CONSTRAINT, "users.email");
    assert!(matches!(answer_creation(Err(failure(true, Some("users.email")))), Ok(None)));
    assert!(matches!(
        answer_creation(Err(failure(true, Some("users.id")))),
        Err(RepoError::DbError(m)) if m == "failed"
    ));
    assert!(matches!(
        answer_creation(Err(failure(true, Some("users.emai")))),
        Err(RepoError::DbError(_))
    ));
    assert!(matches!(
        answer_creation(Err(failure(true, Some("users.email ")))),
        Err(RepoError::DbError(_))
    ));
    assert!(matches!(answer_creation(Err(failure(true, None))), Err(RepoError::DbError(_))));
    assert!(matches!(
        answer_creation(Err(failure(false, Some("users.email")))),
        Err(RepoError::DbError(_))
    ));
    assert!(matches!(
        answer_creation(Err(InsertFailure { database: None, message: "pool closed".to_string() })),
        Err(RepoError::DbError(m)) if m == "pool closed"
    ));
}

#[test]
fn a_stored_account_is_the_answer() {
    let user = User { id: 3, email: "a@x.com".into(), password_hash: "h".into(), created_at: 8 };
    let answer = answer_creation(Ok(user)).unwrap().unwrap();
    assert_eq!(answer.id, 3);
    assert_eq!(answer.email, "a@x.com");
    assert_eq!(answer.password_hash, "h");
    assert_eq!(answer.created_at, 8);
}

#[test]
fn what_was_looked_up_is_the_answer() {
    let user = User { id: 3, email: "a@x.com".into(), password_hash: "h".into(), created_at: 8 };
    assert!(matches!(answer_lookup(Ok(Some(user))), Ok(Some(u)) if u.id == 3 && u.email == "a@x.com"));
    assert!(matches!(answer_lookup(Ok(None)), Ok(None)));
    assert!(matches!(
        answer_lookup(Err("connection reset".to_string())),
        Err(RepoError::DbError(m)) if m == "connection reset"
    ));
}

#[test]
fn the_mock_stores_answer_by_rote() {
    let created = MockRepoSuccess.create_user("a@x.com", "h").unwrap().unwrap();
    assert_eq!((created.id, created.created_at), (1, 0));
    assert_eq!(created.email, "a@x.com");
    assert_eq!(created.password_hash, "h");
    let found = MockRepoSuccess.find_by_email("b@x.com").unwrap().unwrap();
    assert_eq!(found.email, "b@x.com");
    assert_eq!(found.password_hash, "x");

    assert!(matches!(MockRepoConflict.create_user("a@x.com", "h"), Ok(None)));
    assert!(matches!(MockRepoConflict.find_by_email("a@x.com"), Ok(None)));

    let user = User { id: 3, email: "a@x.com".into(), password_hash: "h".into(), created_at: 8 };
    let with_user = MockRepoWithUser { user };
    assert!(matches!(with_user.create_user("z@x.com", "other"), Ok(Some(u)) if u.id == 3 && u.email == "a@x.com"));
    assert!(matches!(with_user.find_by_email("a@x.com"), Ok(Some(u)) if u.id == 3 && u.created_at == 8));
    assert!(matches!(with_user.find_by_email("A@x.com"), Ok(None)));
    assert!(matches!(with_user.find_by_email("a@x.co"), Ok(None)));
    assert!(matches!(with_user.find_by_email(""), Ok(None)));
}

#[test]
fn store_error_messages() {
    assert_eq!(RepoError::DbError("no such table".into()).message(), "database error: no such table");
    assert_eq!(RepoError::Conflict.message(), "email already exists");
    assert_eq!(RepoError::Internal.message(), "internal error");
}

#[test]
fn same_text_compares_character_by_character() {
    assert!(same_text("", ""));
    assert!(same_text("users.email", "users.email"));
    assert!(!same_text("users.email", "users.emaiL"));
    assert!(!same_text("users.email", "users.email "));
    assert!(!same_text("a", ""));
    assert!(same_text("é", "\u{e9}"));
    assert!(!same_text("é", "e\u{301}"));
}
