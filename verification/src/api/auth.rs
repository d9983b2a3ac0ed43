//! Logging in and registering.

use vstd::prelude::*;
use vstd::utf8::encode_utf8;
use crate::auth::jwt::{create_token, issued, issued_claims, jwt_encoded, TOKEN_LIFETIME_SECS};
use crate::auth::password::{
    hash_password, hashing_result, is_hash_of, password_check, verify_password,
};
use crate::auth::{AuthPayload, AuthPayloadView};
use crate::error::{AppError, AppErrorView, TokenError};
use crate::ids::{format_id, uuid_text};
use crate::models::user::{registered, stores_hash, Model, ModelView};
use crate::time::Timestamp;

verus! {

/// A login attempt: the name of an account and the password offered.
#[derive(Debug, Clone, PartialEq, Eq)]
pub struct LoginRequest {
    pub username: String,
    pub password: String,
}

/// The answer to a successful login: the token, and the identity it
/// asserts.
#[derive(Debug, Clone, PartialEq, Eq)]
pub struct LoginResponse {
    pub token: String,
    pub user_id: String,
    pub username: String,
    pub is_admin: bool,
}

/// A request for a new account.
#[derive(Debug, Clone, PartialEq, Eq)]
pub struct RegisterRequest {
    pub username: String,
    pub email: String,
    pub password: String,
}

/// The answer to a registration: the id and name of the new account.
#[derive(Debug, Clone, PartialEq, Eq)]
pub struct RegisterResponse {
    pub user_id: String,
    pub username: String,
}

/// The identity an account has when it logs in.
pub open spec fn identity_of(user: ModelView) -> AuthPayloadView {
    AuthPayloadView { user_id: user.id, username: user.username, is_admin: user.is_admin }
}

/// The one answer to a failed login. It is the same whether no account
/// has the name or the password is wrong, so that a client cannot find
/// out which names exist.
pub open spec fn login_refused() -> AppErrorView {
    AppErrorView::AuthenticationError("Invalid username or password"@)
}

/// Checks a login attempt against the account found under the name.
///
/// The attempt succeeds, with the identity of the account, exactly where
/// an account was found and the password is the one that was hashed. An
/// unknown name and a wrong password get the same answer. A stored hash
/// that does not parse is a password-hashing error.
pub fn login(user: Option<&Model>, req: &LoginRequest) -> (outcome: Result<AuthPayload, AppError>)
    ensures
        match user {
            None => outcome matches Err(e) && e@ == login_refused(),
            Some(user) => match password_check(req.password@, user.password_hash@) {
                Some(true) => outcome matches Ok(payload) && payload@ == identity_of(user@),
                Some(false) => outcome matches Err(e) && e@ == login_refused(),
                None => outcome matches Err(e) && e@ is PasswordHashingError,
            },
        },
{
    let user = match user {
        Some(user) => user,
        None => {
            return Err(AppError::authentication_error("Invalid username or password"));
        },
    };
    match verify_password(req.password.as_str(), user.password_hash.as_str()) {
        Err(error) => Err(error),
        Ok(false) => Err(AppError::authentication_error("Invalid username or password")),
        Ok(true) => Ok(
            AuthPayload { user_id: user.id, username: user.username.clone(), is_admin: user.is_admin },
        ),
    }
}

impl LoginResponse {
    /// The answer to a successful login: a token issued for `payload` at
    /// time `now`, next to the identity it asserts.
    pub fn issue(payload: AuthPayload, secret: &str, now: usize) -> (outcome: Result<
        LoginResponse,
        AppError,
    >)
        requires
            now + TOKEN_LIFETIME_SECS <= usize::MAX,
        ensures
            match jwt_encoded(issued_claims(payload@, now), encode_utf8(secret@)) {
                Some(token) => outcome matches Ok(response) && {
                    &&& response.token@ == token
                    &&& issued(response.token@, payload@, secret@, now)
                    &&& response.user_id@ == uuid_text(payload.user_id)
                    &&& response.username@ == payload.username@
                    &&& response.is_admin == payload.is_admin
                },
                None => outcome matches Err(e) && e@ == AppErrorView::JwtError(TokenError::Signing),
            },
    {
        match create_token(&payload, secret, now) {
            Ok(token) => Ok(
                LoginResponse {
                    token,
                    user_id: format_id(payload.user_id),
                    username: payload.username,
                    is_admin: payload.is_admin,
                },
            ),
            Err(error) => Err(AppError::JwtError(error)),
        }
    }
}

/// Whether a registration may go ahead, given whether the name and the
/// address are taken. The name is looked at first.
pub open spec fn registration_outcome(username_taken: bool, email_taken: bool) -> Result<
    (),
    AppErrorView,
> {
    if username_taken {
        Err(AppErrorView::ValidationError("Username already taken"@))
    } else if email_taken {
        Err(AppErrorView::ValidationError("Email already registered"@))
    } else {
        Ok(())
    }
}

/// Refuses a registration whose name or address is taken.
pub fn check_registration(username_taken: bool, email_taken: bool) -> (outcome: Result<(), AppError>)
    ensures
        match registration_outcome(username_taken, email_taken) {
            Ok(()) => outcome is Ok,
            Err(error) => outcome matches Err(e) && e@ == error,
        },
{
    if username_taken {
        Err(AppError::ValidationError("Username already taken".to_owned()))
    } else if email_taken {
        Err(AppError::ValidationError("Email already registered".to_owned()))
    } else {
        Ok(())
    }
}

/// The account that registering `req` under `id` at time `now` creates.
///
/// Registering fails only where hashing the password, under the salt
/// drawn for it, fails. The stored hash is a hash of the password in the
/// request, and so verifies it; the password itself is not kept.
pub fn register(req: RegisterRequest, id: u128, now: Timestamp) -> (outcome: Result<Model, AppError>)
    ensures
        exists|salt: Seq<char>| #[trigger] stores_hash(req.password@, salt, outcome),
        match outcome {
            Ok(user) => {
                &&& user@ == registered(id, req.username@, req.email@, user.password_hash@, now)
                &&& is_hash_of(req.password@, user.password_hash@)
                &&& password_check(req.password@, user.password_hash@) == Some(true)
            },
            Err(e) => e@ is PasswordHashingError,
        },
{
    let hashed = hash_password(req.password.as_str());
    let ghost salt = choose|salt: Seq<char>| #[trigger] hashing_result(req.password@, salt, hashed);
    let outcome = match hashed {
        Ok(password_hash) => Ok(Model::new(id, req.username, req.email, password_hash, now)),
        Err(error) => Err(error),
    };
    assert(stores_hash(req.password@, salt, outcome));
    outcome
}

impl RegisterResponse {
    /// The answer to a registration: the id and name of the new account.
    pub fn from(user: &Model) -> (response: RegisterResponse)
        ensures
            response.user_id@ == uuid_text(user.id),
            response.username@ == user.username@,
    {
        RegisterResponse { user_id: format_id(user.id), username: user.username.clone() }
    }
}

} // verus!
