use forum_backend::api::auth::{login, LoginRequest, LoginResponse};
use forum_backend::auth::jwt::{create_token, verify_token};
use forum_backend::auth::password::{hash_password, verify_password};
use forum_backend::auth::AuthPayload;
use forum_backend::error::AppError;
use forum_backend::middleware::auth::{authenticate, authorize};
use forum_backend::models::user::Model;
use forum_backend::time::Timestamp;

const SECRET: &str = "process-wide-secret";
const NOW: usize = 1_700_000_000;
const U: u128 = 0x0123_4567_89ab_cdef_0123_4567_89ab_cdef;

#[test]
fn password_token_and_both_stages() {
    let stored = hash_password("secret123").unwrap();
    assert_eq!(verify_password("secret123", &stored), Ok(true));

    let identity = AuthPayload { user_id: U, username: "alice".to_string(), is_admin: false };
    let token = create_token(&identity, SECRET, NOW).unwrap();
    assert_eq!(verify_token(&token, SECRET, NOW), Ok(identity.clone()));

    let header = format!("Bearer {}", token);
    let attached = authenticate(Some(&header), SECRET, NOW).unwrap();
    assert_eq!(attached, identity);
    assert_eq!(
        authorize(Some(&attached)),
        Err(AppError::AuthorizationError("Admin privileges required".to_string()))
    );
}

#[test]
fn login_issues_a_token_that_the_request_pipeline_accepts() {
    let at = Timestamp::new(NOW as i64, 0).unwrap();
    let account = Model::new(
        U,
        "alice".to_string(),
        "alice@example.org".to_string(),
        hash_password("secret123").unwrap(),
        at,
    );
    let req = LoginRequest { username: "alice".to_string(), password: "secret123".to_string() };
    let payload = login(Some(&account), &req).unwrap();
    let response = LoginResponse::issue(payload, SECRET, NOW).unwrap();
    assert_eq!(response.user_id, "01234567-89ab-cdef-0123-456789abcdef");
    assert_eq!(response.username, "alice");
    assert!(!response.is_admin);
    let header = format!("Bearer {}", response.token);
    assert_eq!(
        authenticate(Some(&header), SECRET, NOW + 60),
        Ok(AuthPayload { user_id: U, username: "alice".to_string(), is_admin: false })
    );
}
