use forum_backend::api::users::{
    change_password, get_current_user, get_user_by_id, parse_user_id, require_user, update_user,
    ChangePasswordRequest, UpdateUserRequest, UserResponse,
};
use forum_backend::auth::password::{hash_password_with_salt, verify_password};
use forum_backend::error::AppError;
use forum_backend::models::user::Model;
use forum_backend::time::Timestamp;

const ID: u128 = 0x550e8400_e29b_41d4_a716_446655440000;

fn created() -> Timestamp {
    Timestamp::new(1_700_000_000, 0).unwrap()
}

fn later() -> Timestamp {
    Timestamp::new(1_700_086_400, 250_000_000).unwrap()
}

fn account() -> Model {
    let mut user = Model::new(
        ID,
        "alice".to_string(),
        "alice@example.org".to_string(),
        "stored-hash".to_string(),
        created(),
    );
    user.display_name = Some("Alice".to_string());
    user.bio = Some("Hello".to_string());
    user
}

fn not_found() -> AppError {
    AppError::NotFoundError("User not found".to_string())
}

fn shown_to_owner() -> UserResponse {
    UserResponse {
        id: "550e8400-e29b-41d4-a716-446655440000".to_string(),
        username: "alice".to_string(),
        email: "alice@example.org".to_string(),
        display_name: Some("Alice".to_string()),
        bio: Some("Hello".to_string()),
        avatar_url: None,
        theme_preference: None,
        is_admin: false,
        created_at: "2023-11-14T22:13:20+00:00".to_string(),
        last_login: Some("2023-11-14T22:13:20+00:00".to_string()),
    }
}

#[test]
fn account_is_shown_without_its_password_hash() {
    assert_eq!(UserResponse::from(account()), shown_to_owner());
}

#[test]
fn account_that_never_logged_in_has_no_last_login() {
    let mut user = account();
    user.last_login = None;
    assert_eq!(UserResponse::from(user).last_login, None);
}

#[test]
fn missing_account_is_not_found() {
    assert_eq!(require_user(None), Err(not_found()));
    assert_eq!(require_user(Some(account())), Ok(account()));
    assert_eq!(get_current_user(None), Err(not_found()));
    assert_eq!(get_user_by_id(None), Err(not_found()));
}

#[test]
fn owner_sees_the_address_and_others_do_not() {
    assert_eq!(get_current_user(Some(account())), Ok(shown_to_owner()));
    let mut expected = shown_to_owner();
    expected.email = String::new();
    assert_eq!(get_user_by_id(Some(account())), Ok(expected));
}

#[test]
fn profile_update_changes_only_what_the_request_names() {
    let req = UpdateUserRequest {
        display_name: None,
        bio: Some("New bio".to_string()),
        avatar_url: Some("https://example.org/a.png".to_string()),
        theme_preference: None,
    };
    let mut expected = account();
    expected.bio = Some("New bio".to_string());
    expected.avatar_url = Some("https://example.org/a.png".to_string());
    expected.updated_at = later();
    assert_eq!(update_user(Some(account()), req, later()), Ok(expected));
}

#[test]
fn empty_profile_update_only_moves_the_time_of_update() {
    let req = UpdateUserRequest { display_name: None, bio: None, avatar_url: None, theme_preference: None };
    let mut expected = account();
    expected.updated_at = later();
    assert_eq!(update_user(Some(account()), req.clone(), later()), Ok(expected));
    assert_eq!(update_user(None, req, later()), Err(not_found()));
}

#[test]
fn password_changes_where_the_current_one_is_right() {
    let mut user = account();
    user.password_hash = hash_password_with_salt("old-secret", "c29tZXNhbHRzb21lc2FsdA").unwrap();
    let req = ChangePasswordRequest {
        current_password: "old-secret".to_string(),
        new_password: "new-secret".to_string(),
    };
    let stored = change_password(Some(user.clone()), &req, later()).unwrap();
    assert_eq!(verify_password("new-secret", &stored.password_hash), Ok(true));
    assert_eq!(verify_password("old-secret", &stored.password_hash), Ok(false));
    assert_eq!(stored.updated_at, later());
    let mut expected = user;
    expected.password_hash = stored.password_hash.clone();
    expected.updated_at = later();
    assert_eq!(stored, expected);
}

#[test]
fn password_stays_where_the_current_one_is_wrong() {
    let mut user = account();
    user.password_hash = hash_password_with_salt("old-secret", "c29tZXNhbHRzb21lc2FsdA").unwrap();
    let req = ChangePasswordRequest {
        current_password: "guess".to_string(),
        new_password: "new-secret".to_string(),
    };
    assert_eq!(
        change_password(Some(user), &req, later()),
        Err(AppError::AuthenticationError("Current password is incorrect".to_string()))
    );
    assert_eq!(change_password(None, &req, later()), Err(not_found()));
}

#[test]
fn password_change_on_a_corrupted_hash_is_an_internal_error() {
    let req = ChangePasswordRequest {
        current_password: "stored-hash".to_string(),
        new_password: "new-secret".to_string(),
    };
    match change_password(Some(account()), &req, later()) {
        Err(AppError::PasswordHashingError(_)) => {}
        other => panic!("unexpected outcome: {:?}", other),
    }
}

#[test]
fn account_ids_are_read_from_text() {
    assert_eq!(parse_user_id("550e8400-e29b-41d4-a716-446655440000"), Ok(ID));
    assert_eq!(parse_user_id("550E8400-E29B-41D4-A716-446655440000"), Ok(ID));
    assert_eq!(parse_user_id("550e8400e29b41d4a716446655440000"), Ok(ID));
    assert_eq!(parse_user_id("00000000-0000-0000-0000-000000000001"), Ok(1));
    let invalid = Err(AppError::ValidationError("Invalid user ID format".to_string()));
    assert_eq!(parse_user_id(""), invalid);
    assert_eq!(parse_user_id("42"), invalid);
    assert_eq!(parse_user_id("550e8400-e29b-41d4-a716-44665544000g"), invalid);
}
