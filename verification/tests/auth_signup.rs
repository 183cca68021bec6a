use memo_app::handlers::auth::{login, login_reply, me, signup, signup_reply, token_reply};
use memo_app::handlers::model::{Body, LoginInput, SignupInput};
use memo_app::middleware::auth::extractor::AuthenticatedUser;
use memo_app::middleware::auth::model::JWTClaim;
use memo_app::middleware::auth::token::{JwtTokenService, TokenError};
use memo_app::repository::user::RepoError;
use memo_app::service::auth::{AuthServiceError, MockAuthServiceConflict, MockAuthServiceSuccess};

#[test]
fn signup_success_returns_201() {
    let mock_service = MockAuthServiceSuccess;

    let payload = SignupInput { email: "a@example.com".into(), password: "pass".into() };
    let resp = signup(&mock_service, &payload);
    assert_eq!(resp.status, 201);
}

#[test]
fn signup_conflict_returns_409() {
    let mock_service = MockAuthServiceConflict;

    let payload = SignupInput { email: "a@example.com".into(), password: "pass".into() };
    let resp = signup(&mock_service, &payload);
    assert_eq!(resp.status, 409);
}

#[test]
fn signup_answers_by_outcome() {
    assert_eq!(signup_reply(&Err(AuthServiceError::InvalidEmail)).status, 400);
    assert_eq!(signup_reply(&Err(AuthServiceError::InvalidPassword)).status, 400);
    assert_eq!(signup_reply(&Err(AuthServiceError::HashError)).status, 500);
    assert_eq!(signup_reply(&Err(AuthServiceError::Repo(RepoError::Internal))).status, 500);
    assert_eq!(signup_reply(&Err(AuthServiceError::InvalidCredentials)).status, 500);
    let reply = signup_reply(&Ok(None));
    assert_eq!(reply.status, 409);
    assert!(matches!(reply.body, Body::Empty));
}

#[test]
fn login_success_returns_200_with_a_token_for_the_account() {
    let jwt = JwtTokenService::from_secret(b"test-secret", 3600);
    let payload = LoginInput { email: "a@example.com".into(), password: "pass".into() };
    let resp = login(&MockAuthServiceSuccess, &jwt, &payload);
    assert_eq!(resp.status, 200);
    let Body::Token(output) = resp.body else {
        panic!("no token in the answer");
    };
    let claim = jwt.verify(&output.token).unwrap();
    assert_eq!(claim.sub, 1);
    assert_eq!(claim.exp - claim.iat, 3600);
}

#[test]
fn login_without_account_and_without_error_returns_500() {
    let jwt = JwtTokenService::from_secret(b"test-secret", 3600);
    let payload = LoginInput { email: "a@example.com".into(), password: "pass".into() };
    let resp = login(&MockAuthServiceConflict, &jwt, &payload);
    assert_eq!(resp.status, 500);
}

#[test]
fn login_answers_by_outcome() {
    let jwt = JwtTokenService::from_secret(b"test-secret", 3600);
    assert_eq!(login_reply(&jwt, &Err(AuthServiceError::InvalidCredentials)).status, 401);
    assert_eq!(login_reply(&jwt, &Err(AuthServiceError::Repo(RepoError::Internal))).status, 500);
    assert_eq!(login_reply(&jwt, &Err(AuthServiceError::HashError)).status, 500);
    assert_eq!(login_reply(&jwt, &Ok(None)).status, 500);
}

#[test]
fn login_answers_by_what_the_token_service_gave() {
    let reply = token_reply(Ok("abc".to_string()));
    assert_eq!(reply.status, 200);
    assert!(matches!(reply.body, Body::Token(output) if output.token == "abc"));
    let reply = token_reply(Err(TokenError::Encode));
    assert_eq!(reply.status, 500);
    assert!(matches!(reply.body, Body::Empty));
}

#[test]
fn me_returns_the_claim() {
    let claim = JWTClaim { sub: 5, iat: 10, exp: 20 };
    let reply = me(&AuthenticatedUser(claim));
    assert_eq!(reply.status, 200);
    assert!(matches!(reply.body, Body::Claim(c) if c == claim));
}
