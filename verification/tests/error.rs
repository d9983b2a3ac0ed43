use forum_backend::error::{AppError, ErrorResponse, TokenError};

fn response(status: &str, message: &str) -> ErrorResponse {
    ErrorResponse { status: status.to_string(), message: message.to_string() }
}

#[test]
fn constructors_keep_the_detail() {
    assert_eq!(AppError::internal_server_error("a"), AppError::InternalServerError("a".to_string()));
    assert_eq!(AppError::authentication_error("b"), AppError::AuthenticationError("b".to_string()));
    assert_eq!(AppError::authorization_error("c"), AppError::AuthorizationError("c".to_string()));
    assert_eq!(AppError::not_found_error("d"), AppError::NotFoundError("d".to_string()));
    assert_eq!(AppError::bad_request_error("e"), AppError::BadRequestError("e".to_string()));
    assert_eq!(AppError::file_scanning_error("f"), AppError::FileScanningError("f".to_string()));
    assert_eq!(AppError::password_hashing_error("g"), AppError::PasswordHashingError("g".to_string()));
}

#[test]
fn each_error_has_its_status() {
    assert_eq!(AppError::InternalServerError("x".to_string()).status_code(), 500);
    assert_eq!(AppError::DatabaseError("x".to_string()).status_code(), 500);
    assert_eq!(AppError::AuthenticationError("x".to_string()).status_code(), 401);
    assert_eq!(AppError::AuthorizationError("x".to_string()).status_code(), 403);
    assert_eq!(AppError::ValidationError("x".to_string()).status_code(), 400);
    assert_eq!(AppError::NotFoundError("x".to_string()).status_code(), 404);
    assert_eq!(AppError::PasswordHashingError("x".to_string()).status_code(), 500);
    assert_eq!(AppError::JwtError(TokenError::Expired).status_code(), 401);
    assert_eq!(AppError::BadRequestError("x".to_string()).status_code(), 400);
    assert_eq!(AppError::FileScanningError("x".to_string()).status_code(), 500);
}

#[test]
fn not_authenticated_and_not_permitted_are_told_apart() {
    let unauthenticated = AppError::authentication_error("Invalid token");
    let forbidden = AppError::authorization_error("Admin privileges required");
    assert_ne!(unauthenticated.status_code(), forbidden.status_code());
    assert_eq!(
        unauthenticated.error_response(),
        response("unauthorized", "Authentication error: Invalid token")
    );
    assert_eq!(
        forbidden.error_response(),
        response("forbidden", "Authorization error: Admin privileges required")
    );
}

#[test]
fn messages_carry_the_detail() {
    assert_eq!(AppError::InternalServerError("x".to_string()).message(), "Internal server error: x");
    assert_eq!(AppError::DatabaseError("x".to_string()).message(), "Database error: x");
    assert_eq!(AppError::AuthenticationError("x".to_string()).message(), "Authentication error: x");
    assert_eq!(AppError::AuthorizationError("x".to_string()).message(), "Authorization error: x");
    assert_eq!(AppError::ValidationError("x".to_string()).message(), "Validation error: x");
    assert_eq!(AppError::NotFoundError("x".to_string()).message(), "Resource not found: x");
    assert_eq!(AppError::PasswordHashingError("x".to_string()).message(), "Password hashing error: x");
    assert_eq!(AppError::JwtError(TokenError::Expired).message(), "JWT error: token has expired");
    assert_eq!(AppError::BadRequestError("x".to_string()).message(), "Bad request: x");
    assert_eq!(AppError::FileScanningError("x".to_string()).message(), "File scanning error: x");
}

#[test]
fn token_errors_have_their_texts() {
    assert_eq!(TokenError::Malformed.describe(), "token is malformed");
    assert_eq!(TokenError::SignatureInvalid.describe(), "token signature is invalid");
    assert_eq!(TokenError::Expired.describe(), "token has expired");
    assert_eq!(TokenError::SubjectInvalid.describe(), "token subject is invalid");
    assert_eq!(TokenError::Signing.describe(), "token could not be signed");
}

#[test]
fn client_errors_are_shown_in_full() {
    assert_eq!(
        AppError::ValidationError("Username already taken".to_string()).error_response(),
        response("bad_request", "Validation error: Username already taken")
    );
    assert_eq!(
        AppError::NotFoundError("User not found".to_string()).error_response(),
        response("not_found", "Resource not found: User not found")
    );
    assert_eq!(
        AppError::BadRequestError("no body".to_string()).error_response(),
        response("bad_request", "Bad request: no body")
    );
}

#[test]
fn internal_detail_never_reaches_the_client() {
    let generic = response("error", "Internal server error");
    assert_eq!(AppError::InternalServerError("stack trace".to_string()).error_response(), generic);
    assert_eq!(AppError::DatabaseError("connection string".to_string()).error_response(), generic);
    assert_eq!(AppError::PasswordHashingError("$argon2id$...".to_string()).error_response(), generic);
    assert_eq!(AppError::FileScanningError("/var/uploads/x".to_string()).error_response(), generic);
}

#[test]
fn token_errors_reach_the_client_as_one_answer() {
    let collapsed = response("unauthorized", "Authentication error: Invalid token");
    assert_eq!(AppError::JwtError(TokenError::Malformed).error_response(), collapsed);
    assert_eq!(AppError::JwtError(TokenError::SignatureInvalid).error_response(), collapsed);
    assert_eq!(AppError::JwtError(TokenError::Expired).error_response(), collapsed);
    assert_eq!(AppError::JwtError(TokenError::SubjectInvalid).error_response(), collapsed);
    assert_eq!(AppError::JwtError(TokenError::Signing).error_response(), collapsed);
}
