use memo_app::domain::model::Note;
use memo_app::handlers::model::{Body, CreateNoteInput, Reply, UpdateNoteInput};
use memo_app::handlers::notes::{authorize_update, create_note, get_note, update_note};
use memo_app::middleware::auth::extractor::AuthenticatedUser;
use memo_app::middleware::auth::model::JWTClaim;
use memo_app::middleware::auth::token::JwtTokenService;
use memo_app::repository::user::RepoError;

// ---- Stores that answer by rote ----

struct MockNoteRepoCreateOk;

impl MockNoteRepoCreateOk {
    fn create_note(&self, user_id: i64, title: &str, content: &str) -> Result<Note, RepoError> {
        Ok(Note {
            id: 1,
            author_id: user_id,
            title: title.to_string(),
            content: content.to_string(),
            created_at: 1,
            updated_at: 1,
        })
    }
}

struct MockNoteRepoFindSome;

impl MockNoteRepoFindSome {
    fn find_by_id(&self, note_id: i64) -> Result<Option<Note>, RepoError> {
        Ok(Some(Note {
            id: note_id,
            author_id: 7,
            title: "t".into(),
            content: "c".into(),
            created_at: 1,
            updated_at: 1,
        }))
    }
}

struct MockNoteRepoFindNone;

impl MockNoteRepoFindNone {
    fn find_by_id(&self, _note_id: i64) -> Result<Option<Note>, RepoError> {
        Ok(None)
    }
}

struct MockNoteRepoUpdateOk;

impl MockNoteRepoUpdateOk {
    fn update_note(
        &self,
        note_id: i64,
        user_id: i64,
        title: Option<&str>,
        content: Option<&str>,
    ) -> Result<Option<Note>, RepoError> {
        Ok(Some(Note {
            id: note_id,
            author_id: user_id,
            title: title.unwrap_or("orig").to_string(),
            content: content.unwrap_or("orig").to_string(),
            created_at: 1,
            updated_at: 2,
        }))
    }
}

struct MockNoteRepoUpdateNone;

impl MockNoteRepoUpdateNone {
    fn update_note(
        &self,
        _note_id: i64,
        _user_id: i64,
        _title: Option<&str>,
        _content: Option<&str>,
    ) -> Result<Option<Note>, RepoError> {
        Ok(None)
    }
}

fn jwt() -> JwtTokenService {
    JwtTokenService::from_secret(b"test-secret", 3600)
}

/// The identity of a request that carries this authorization header.
fn identify(authorization: &str) -> AuthenticatedUser {
    AuthenticatedUser::from_request(Some(&jwt()), Some(authorization)).expect("identity")
}

fn note_of(reply: Reply) -> Note {
    match reply.body {
        Body::Note(note) => note,
        other => panic!("no note in the answer: {:?}", other),
    }
}

// ---- Tests ----

#[test]
fn create_note_returns_201() {
    let repo = MockNoteRepoCreateOk;

    let user_id = 10;
    let token = jwt().generate(user_id).unwrap();
    let payload = CreateNoteInput { title: "Hello".into(), content: "World".into() };

    let user = identify(&format!("Bearer {}", token));
    let resp = create_note(repo.create_note(user.0.sub, &payload.title, &payload.content));
    assert_eq!(resp.status, 201);

    let created = note_of(resp);
    assert_eq!(created.author_id, user_id);
    assert_eq!(created.title, "Hello");
    assert_eq!(created.content, "World");
}

#[test]
fn get_note_returns_200_public() {
    let repo = MockNoteRepoFindSome;

    let resp = get_note(repo.find_by_id(1));
    assert_eq!(resp.status, 200);
}

#[test]
fn get_note_returns_404_when_absent() {
    let repo = MockNoteRepoFindNone;

    let resp = get_note(repo.find_by_id(1));
    assert_eq!(resp.status, 404);
}

#[test]
fn update_note_returns_200_for_owner() {
    let repo = MockNoteRepoUpdateOk;

    let user_id = 42;
    let token = jwt().generate(user_id).unwrap();
    let payload = UpdateNoteInput { title: Some("New".into()), content: None };

    let user = identify(&format!("Bearer {}", token));
    let resp = update_note(repo.update_note(
        1,
        user.0.sub,
        payload.title.as_deref(),
        payload.content.as_deref(),
    ));
    assert_eq!(resp.status, 200);

    let updated = note_of(resp);
    assert_eq!(updated.id, 1);
    assert_eq!(updated.author_id, user_id);
    assert_eq!(updated.title, "New");
}

#[test]
fn update_note_returns_404_when_not_owner_or_absent() {
    let repo = MockNoteRepoUpdateNone;

    let token = jwt().generate(99).unwrap();
    let payload = UpdateNoteInput { title: None, content: Some("C".into()) };

    let user = identify(&format!("Bearer {}", token));
    let resp = update_note(repo.update_note(
        2,
        user.0.sub,
        payload.title.as_deref(),
        payload.content.as_deref(),
    ));
    assert_eq!(resp.status, 404);
}

// ---- beyond these ----

fn note_by(author_id: i64) -> Note {
    Note { id: 3, author_id, title: "t".into(), content: "c".into(), created_at: 1, updated_at: 1 }
}

fn user(sub: i64) -> AuthenticatedUser {
    AuthenticatedUser(JWTClaim { sub, iat: 0, exp: 1 })
}

#[test]
fn is_owner_is_true_of_the_author_alone() {
    assert!(note_by(7).is_owner(7));
    assert!(!note_by(7).is_owner(8));
    assert!(!note_by(7).is_owner(-7));
    assert!(note_by(i64::MIN).is_owner(i64::MIN));
}

#[test]
fn update_is_forbidden_to_all_but_the_author() {
    assert!(authorize_update(&user(7), &note_by(7)).is_none());
    let refusal = authorize_update(&user(8), &note_by(7)).expect("refusal");
    assert_eq!(refusal.status, 403);
    assert!(matches!(refusal.body, Body::Empty));
}

#[test]
fn a_failing_store_is_an_internal_error() {
    assert_eq!(get_note(Err(RepoError::Internal)).status, 500);
    assert_eq!(create_note(Err(RepoError::DbError("gone".into()))).status, 500);
    assert_eq!(update_note(Err(RepoError::Internal)).status, 500);
}

#[test]
fn get_note_hands_the_note_out() {
    let found = note_of(get_note(MockNoteRepoFindSome.find_by_id(5)));
    assert_eq!(found.id, 5);
    assert_eq!(found.author_id, 7);
    assert_eq!(found.title, "t");
    assert_eq!(found.updated_at, 1);
    let copy = found.clone();
    assert_eq!(copy.id, 5);
    assert_eq!(copy.content, "c");
    assert_eq!(copy.created_at, 1);
}
