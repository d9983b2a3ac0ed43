//! Reading and changing one's own account.

use vstd::prelude::*;
use crate::auth::password::{
    hash_password, hashing_result, is_hash_of, password_check, verify_password,
};
use crate::error::{AppError, AppErrorView};
use crate::ids::{format_id, parse_id, uuid_parsed, uuid_text};
use crate::models::user::{stores_hash, Model, ModelView};
use crate::text::opt_text;
use crate::time::Timestamp;

verus! {

/// An account as it is shown: everything but the password hash.
#[derive(Debug, Clone, PartialEq, Eq)]
pub struct UserResponse {
    pub id: String,
    pub username: String,
    pub email: String,
    pub display_name: Option<String>,
    pub bio: Option<String>,
    pub avatar_url: Option<String>,
    pub theme_preference: Option<String>,
    pub is_admin: bool,
    pub created_at: String,
    pub last_login: Option<String>,
}

/// A change to one's profile: only the fields that are there change.
#[derive(Debug, Clone, PartialEq, Eq)]
pub struct UpdateUserRequest {
    pub display_name: Option<String>,
    pub bio: Option<String>,
    pub avatar_url: Option<String>,
    pub theme_preference: Option<String>,
}

/// A change of password, which needs the current one.
#[derive(Debug, Clone, PartialEq, Eq)]
pub struct ChangePasswordRequest {
    pub current_password: String,
    pub new_password: String,
}

/// The mathematical value of a [`UserResponse`].
pub struct UserResponseView {
    pub id: Seq<char>,
    pub username: Seq<char>,
    pub email: Seq<char>,
    pub display_name: Option<Seq<char>>,
    pub bio: Option<Seq<char>>,
    pub avatar_url: Option<Seq<char>>,
    pub theme_preference: Option<Seq<char>>,
    pub is_admin: bool,
    pub created_at: Seq<char>,
    pub last_login: Option<Seq<char>>,
}

impl View for UserResponse {
    type V = UserResponseView;

    open spec fn view(&self) -> UserResponseView {
        UserResponseView {
            id: self.id@,
            username: self.username@,
            email: self.email@,
            display_name: opt_text(self.display_name),
            bio: opt_text(self.bio),
            avatar_url: opt_text(self.avatar_url),
            theme_preference: opt_text(self.theme_preference),
            is_admin: self.is_admin,
            created_at: self.created_at@,
            last_login: opt_text(self.last_login),
        }
    }
}

/// How an account is shown to its owner.
pub open spec fn shown(user: ModelView) -> UserResponseView {
    UserResponseView {
        id: uuid_text(user.id),
        username: user.username,
        email: user.email,
        display_name: user.display_name,
        bio: user.bio,
        avatar_url: user.avatar_url,
        theme_preference: user.theme_preference,
        is_admin: user.is_admin,
        created_at: user.created_at.text(),
        last_login: match user.last_login {
            Some(at) => Some(at.text()),
            None => None,
        },
    }
}

/// How an account is shown to others: as to its owner, but without the
/// address.
pub open spec fn shown_to_others(user: ModelView) -> UserResponseView {
    UserResponseView { email: Seq::empty(), ..shown(user) }
}

/// The answer where no account has the id.
pub open spec fn user_not_found() -> AppErrorView {
    AppErrorView::NotFoundError("User not found"@)
}

impl UserResponse {
    /// Shows an account to its owner.
    pub fn from(user: Model) -> (response: UserResponse)
        ensures
            response@ == shown(user@),
    {
        UserResponse {
            id: format_id(user.id),
            username: user.username,
            email: user.email,
            display_name: user.display_name,
            bio: user.bio,
            avatar_url: user.avatar_url,
            theme_preference: user.theme_preference,
            is_admin: user.is_admin,
            created_at: user.created_at.to_rfc3339(),
            last_login: match user.last_login {
                Some(at) => Some(at.to_rfc3339()),
                None => None,
            },
        }
    }
}

/// The account that was looked up, or the not-found error.
pub fn require_user(found: Option<Model>) -> (outcome: Result<Model, AppError>)
    ensures
        match found {
            Some(user) => outcome == Ok::<Model, AppError>(user),
            None => outcome matches Err(e) && e@ == user_not_found(),
        },
{
    match found {
        Some(user) => Ok(user),
        None => Err(AppError::not_found_error("User not found")),
    }
}

/// Shows the caller's own account.
pub fn get_current_user(found: Option<Model>) -> (outcome: Result<UserResponse, AppError>)
    ensures
        match found {
            Some(user) => outcome matches Ok(response) && response@ == shown(user@),
            None => outcome matches Err(e) && e@ == user_not_found(),
        },
{
    match require_user(found) {
        Ok(user) => Ok(UserResponse::from(user)),
        Err(error) => Err(error),
    }
}

/// `first` where it is there, else `second`.
pub open spec fn or_else<T>(first: Option<T>, second: Option<T>) -> Option<T> {
    if first is Some {
        first
    } else {
        second
    }
}

/// The account after a profile update at time `now`: each field that the
/// request names takes the request's value, the others stay.
pub open spec fn updated(user: ModelView, req: UpdateUserRequest, now: Timestamp) -> ModelView {
    ModelView {
        display_name: or_else(opt_text(req.display_name), user.display_name),
        bio: or_else(opt_text(req.bio), user.bio),
        avatar_url: or_else(opt_text(req.avatar_url), user.avatar_url),
        theme_preference: or_else(opt_text(req.theme_preference), user.theme_preference),
        updated_at: now,
        ..user
    }
}

/// Applies a profile update to the caller's account and returns the
/// account to store.
pub fn update_user(found: Option<Model>, req: UpdateUserRequest, now: Timestamp) -> (outcome: Result<
    Model,
    AppError,
>)
    ensures
        match found {
            Some(user) => outcome matches Ok(stored) && stored@ == updated(user@, req, now),
            None => outcome matches Err(e) && e@ == user_not_found(),
        },
{
    let mut user = match require_user(found) {
        Ok(user) => user,
        Err(error) => {
            return Err(error);
        },
    };
    if let Some(display_name) = req.display_name {
        user.display_name = Some(display_name);
    }
    if let Some(bio) = req.bio {
        user.bio = Some(bio);
    }
    if let Some(avatar_url) = req.avatar_url {
        user.avatar_url = Some(avatar_url);
    }
    if let Some(theme_preference) = req.theme_preference {
        user.theme_preference = Some(theme_preference);
    }
    user.updated_at = now;
    Ok(user)
}

/// The answer to a wrong current password.
pub open spec fn wrong_current_password() -> AppErrorView {
    AppErrorView::AuthenticationError("Current password is incorrect"@)
}

/// Changes the password of the caller's account and returns the account
/// to store.
///
/// The password changes only where the current one is given correctly,
/// and then the change fails only where hashing the new password, under
/// the salt drawn for it, fails. The new hash verifies the new password;
/// nothing else changes but the time of the update.
pub fn change_password(found: Option<Model>, req: &ChangePasswordRequest, now: Timestamp) -> (outcome:
    Result<Model, AppError>)
    ensures
        match found {
            None => outcome matches Err(e) && e@ == user_not_found(),
            Some(user) => match password_check(req.current_password@, user.password_hash@) {
                None => outcome matches Err(e) && e@ is PasswordHashingError,
                Some(false) => outcome matches Err(e) && e@ == wrong_current_password(),
                Some(true) => (exists|salt: Seq<char>|
                    #[trigger] stores_hash(req.new_password@, salt, outcome)) && match outcome {
                    Ok(stored) => {
                        &&& stored@ == ModelView {
                            password_hash: stored.password_hash@,
                            updated_at: now,
                            ..user@
                        }
                        &&& is_hash_of(req.new_password@, stored.password_hash@)
                        &&& password_check(req.new_password@, stored.password_hash@) == Some(true)
                    },
                    Err(e) => e@ is PasswordHashingError,
                },
            },
        },
{
    let mut user = match require_user(found) {
        Ok(user) => user,
        Err(error) => {
            return Err(error);
        },
    };
    match verify_password(req.current_password.as_str(), user.password_hash.as_str()) {
        Err(error) => {
            return Err(error);
        },
        Ok(false) => {
            return Err(AppError::authentication_error("Current password is incorrect"));
        },
        Ok(true) => {},
    }
    let hashed = hash_password(req.new_password.as_str());
    let ghost salt = choose|salt: Seq<char>| #[trigger] hashing_result(req.new_password@, salt, hashed);
    let outcome = match hashed {
        Ok(password_hash) => {
            user.password_hash = password_hash;
            user.updated_at = now;
            Ok(user)
        },
        Err(error) => Err(error),
    };
    assert(stores_hash(req.new_password@, salt, outcome));
    outcome
}

/// Reads an account id from a path segment.
pub fn parse_user_id(text: &str) -> (outcome: Result<u128, AppError>)
    ensures
        match uuid_parsed(text@) {
            Some(id) => outcome == Ok::<u128, AppError>(id),
            None => outcome matches Err(e) && e@ == AppErrorView::ValidationError(
                "Invalid user ID format"@,
            ),
        },
{
    match parse_id(text) {
        Some(id) => Ok(id),
        None => Err(AppError::ValidationError("Invalid user ID format".to_owned())),
    }
}

/// Shows an account to another user: the address is left out.
pub fn get_user_by_id(found: Option<Model>) -> (outcome: Result<UserResponse, AppError>)
    ensures
        match found {
            Some(user) => outcome matches Ok(response) && response@ == shown_to_others(user@),
            None => outcome matches Err(e) && e@ == user_not_found(),
        },
{
    match require_user(found) {
        Ok(user) => {
            let mut response = UserResponse::from(user);
            response.email = String::new();
            Ok(response)
        },
        Err(error) => Err(error),
    }
}

} // verus!
