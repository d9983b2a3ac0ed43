use forum_backend::auth::jwt::create_token;
use forum_backend::auth::AuthPayload;
use forum_backend::error::AppError;
use forum_backend::middleware::auth::{authenticate, authorize, call_privileged, RequestContext};
use forum_backend::middleware::{AdminMiddleware, AuthMiddleware};
use std::cell::Cell;

const SECRET: &str = "test-secret";
const NOW: usize = 1_700_000_000;

fn user(is_admin: bool) -> AuthPayload {
    AuthPayload { user_id: 0x550e8400_e29b_41d4_a716_446655440000, username: "alice".to_string(), is_admin }
}

fn bearer(payload: &AuthPayload) -> String {
    format!("Bearer {}", create_token(payload, SECRET, NOW).unwrap())
}

fn request(authorization: Option<String>) -> RequestContext {
    RequestContext { authorization, identity: None }
}

#[test]
fn request_without_header_is_rejected() {
    assert_eq!(
        authenticate(None, SECRET, NOW),
        Err(AppError::AuthenticationError("Missing Authorization header".to_string()))
    );
}

#[test]
fn header_with_another_scheme_is_rejected_as_malformed() {
    let malformed = Err(AppError::AuthenticationError("Invalid token format".to_string()));
    assert_eq!(authenticate(Some("Basic xyz"), SECRET, NOW), malformed);
    assert_eq!(authenticate(Some(""), SECRET, NOW), malformed);
    assert_eq!(authenticate(Some("Bearer"), SECRET, NOW), malformed);
    assert_eq!(authenticate(Some("bearer abc"), SECRET, NOW), malformed);
    assert_eq!(authenticate(Some(" Bearer abc"), SECRET, NOW), malformed);
}

#[test]
fn valid_token_yields_the_identity() {
    let header = bearer(&user(false));
    assert_eq!(authenticate(Some(&header), SECRET, NOW + 5), Ok(user(false)));
}

#[test]
fn every_token_failure_gets_the_same_answer() {
    let invalid = Err(AppError::AuthenticationError("Invalid token".to_string()));
    let header = bearer(&user(false));
    assert_eq!(authenticate(Some(&header), SECRET, NOW + 86400), invalid);
    assert_eq!(authenticate(Some(&header), "other-secret", NOW), invalid);
    assert_eq!(authenticate(Some("Bearer "), SECRET, NOW), invalid);
    assert_eq!(authenticate(Some("Bearer not.a.token"), SECRET, NOW), invalid);
    let mut altered = header.clone();
    altered.push('x');
    assert_eq!(authenticate(Some(&altered), SECRET, NOW), invalid);
}

#[test]
fn only_administrators_are_authorized() {
    let refused = Err(AppError::AuthorizationError("Admin privileges required".to_string()));
    assert_eq!(authorize(Some(&user(true))), Ok(()));
    assert_eq!(authorize(Some(&user(false))), refused);
    assert_eq!(authorize(None), refused);
}

#[test]
fn authentication_stage_calls_the_handler_once_with_the_identity() {
    let calls = Cell::new(0);
    let handler = |req: RequestContext| -> Result<Option<AuthPayload>, AppError> {
        calls.set(calls.get() + 1);
        Ok(req.identity)
    };
    let stage = AuthMiddleware::new(SECRET.to_string()).new_transform(handler);
    let response = stage.call(request(Some(bearer(&user(false)))), NOW);
    assert_eq!(response, Ok(Some(user(false))));
    assert_eq!(calls.get(), 1);
}

#[test]
fn authentication_stage_keeps_the_header_on_the_request() {
    let handler = |req: RequestContext| -> Result<RequestContext, AppError> { Ok(req) };
    let stage = AuthMiddleware::new(SECRET.to_string()).new_transform(handler);
    let header = bearer(&user(true));
    let response = stage.call(request(Some(header.clone())), NOW).unwrap();
    assert_eq!(response, RequestContext { authorization: Some(header), identity: Some(user(true)) });
}

#[test]
fn authentication_stage_does_not_call_the_handler_on_failure() {
    let calls = Cell::new(0);
    let handler = |_req: RequestContext| -> Result<(), AppError> {
        calls.set(calls.get() + 1);
        Ok(())
    };
    let stage = AuthMiddleware::new(SECRET.to_string()).new_transform(handler);
    assert_eq!(
        stage.call(request(None), NOW),
        Err(AppError::AuthenticationError("Missing Authorization header".to_string()))
    );
    assert_eq!(
        stage.call(request(Some("Basic xyz".to_string())), NOW),
        Err(AppError::AuthenticationError("Invalid token format".to_string()))
    );
    assert_eq!(
        stage.call(request(Some("Bearer x.y.z".to_string())), NOW),
        Err(AppError::AuthenticationError("Invalid token".to_string()))
    );
    assert_eq!(calls.get(), 0);
}

#[test]
fn authentication_stage_replaces_an_identity_that_was_there() {
    let handler = |req: RequestContext| -> Result<Option<AuthPayload>, AppError> { Ok(req.identity) };
    let stage = AuthMiddleware::new(SECRET.to_string()).new_transform(handler);
    let forged = RequestContext { authorization: Some(bearer(&user(false))), identity: Some(user(true)) };
    assert_eq!(stage.call(forged, NOW), Ok(Some(user(false))));
}

#[test]
fn authorization_stage_passes_administrators_through() {
    let calls = Cell::new(0);
    let handler = |req: RequestContext| -> Result<RequestContext, AppError> {
        calls.set(calls.get() + 1);
        Ok(req)
    };
    let stage = AdminMiddleware.new_transform(handler);
    let incoming = RequestContext { authorization: None, identity: Some(user(true)) };
    assert_eq!(stage.call(incoming.clone()), Ok(incoming));
    assert_eq!(calls.get(), 1);
}

#[test]
fn authorization_stage_stops_everyone_else() {
    let calls = Cell::new(0);
    let handler = |_req: RequestContext| -> Result<(), AppError> {
        calls.set(calls.get() + 1);
        Ok(())
    };
    let stage = AdminMiddleware.new_transform(handler);
    let refused = Err(AppError::AuthorizationError("Admin privileges required".to_string()));
    assert_eq!(stage.call(RequestContext { authorization: None, identity: Some(user(false)) }), refused);
    assert_eq!(stage.call(RequestContext { authorization: None, identity: None }), refused);
    assert_eq!(calls.get(), 0);
}

#[test]
fn stages_compose_in_order() {
    let handler = |req: RequestContext| -> Result<String, AppError> { Ok(req.identity.unwrap().username) };
    let admin_stage = AdminMiddleware.new_transform(handler);
    let inner = |req: RequestContext| -> Result<String, AppError> { admin_stage.call(req) };
    let pipeline = AuthMiddleware::new(SECRET.to_string()).new_transform(inner);
    assert_eq!(pipeline.call(request(Some(bearer(&user(true)))), NOW), Ok("alice".to_string()));
    assert_eq!(
        pipeline.call(request(Some(bearer(&user(false)))), NOW),
        Err(AppError::AuthorizationError("Admin privileges required".to_string()))
    );
    assert_eq!(
        pipeline.call(request(None), NOW),
        Err(AppError::AuthenticationError("Missing Authorization header".to_string()))
    );
}

#[test]
fn a_handler_error_passes_through_both_stages() {
    let handler = |_req: RequestContext| -> Result<(), AppError> {
        Err(AppError::NotFoundError("Category not found".to_string()))
    };
    let stage = AuthMiddleware::new(SECRET.to_string()).new_transform(handler);
    assert_eq!(
        stage.call(request(Some(bearer(&user(false)))), NOW),
        Err(AppError::NotFoundError("Category not found".to_string()))
    );
}

#[test]
fn privileged_route_asks_the_handler_only_for_administrators() {
    let calls = Cell::new(0);
    let handler = |req: RequestContext| -> Result<String, AppError> {
        calls.set(calls.get() + 1);
        Ok(req.identity.unwrap().username)
    };
    assert_eq!(
        call_privileged(&handler, SECRET, request(Some(bearer(&user(true)))), NOW),
        Ok("alice".to_string())
    );
    assert_eq!(calls.get(), 1);
    assert_eq!(
        call_privileged(&handler, SECRET, request(Some(bearer(&user(false)))), NOW),
        Err(AppError::AuthorizationError("Admin privileges required".to_string()))
    );
    assert_eq!(
        call_privileged(&handler, SECRET, request(Some(bearer(&user(true)))), NOW + 86400),
        Err(AppError::AuthenticationError("Invalid token".to_string()))
    );
    assert_eq!(
        call_privileged(&handler, SECRET, request(Some("Basic xyz".to_string())), NOW),
        Err(AppError::AuthenticationError("Invalid token format".to_string()))
    );
    assert_eq!(
        call_privileged(&handler, SECRET, request(None), NOW),
        Err(AppError::AuthenticationError("Missing Authorization header".to_string()))
    );
    assert_eq!(calls.get(), 1);
}

#[test]
fn privileged_route_agrees_with_the_two_stages_stacked() {
    let handler = |req: RequestContext| -> Result<Option<AuthPayload>, AppError> { Ok(req.identity) };
    let admin_stage = AdminMiddleware.new_transform(handler);
    let inner = |req: RequestContext| -> Result<Option<AuthPayload>, AppError> { admin_stage.call(req) };
    let stacked = AuthMiddleware::new(SECRET.to_string()).new_transform(inner);
    let headers = [
        None,
        Some("Basic xyz".to_string()),
        Some("Bearer x.y.z".to_string()),
        Some(bearer(&user(false))),
        Some(bearer(&user(true))),
    ];
    for header in headers {
        for now in [NOW, NOW + 86400] {
            assert_eq!(
                call_privileged(&handler, SECRET, request(header.clone()), now),
                stacked.call(request(header.clone()), now)
            );
        }
    }
}
