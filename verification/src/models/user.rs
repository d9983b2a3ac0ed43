//! Accounts.

use vstd::prelude::*;
use vstd::utf8::encode_utf8;
use crate::auth::password::argon2_encoded;
use crate::error::AppError;
use crate::text::opt_text;
use crate::time::Timestamp;

verus! {

/// The shortest user name an account may have, in bytes.
pub const MIN_USERNAME_LEN: usize = 3;

/// One account, as the database holds it.
#[derive(Debug, Clone, PartialEq, Eq)]
pub struct Model {
    pub id: u128,
    pub username: String,
    pub email: String,
    /// The PHC string of the password. It never leaves the server.
    pub password_hash: String,
    pub display_name: Option<String>,
    pub bio: Option<String>,
    pub avatar_url: Option<String>,
    pub theme_preference: Option<String>,
    pub is_admin: bool,
    pub is_active: bool,
    pub created_at: Timestamp,
    pub updated_at: Timestamp,
    pub last_login: Option<Timestamp>,
}

/// The mathematical value of an account.
pub struct ModelView {
    pub id: u128,
    pub username: Seq<char>,
    pub email: Seq<char>,
    pub password_hash: Seq<char>,
    pub display_name: Option<Seq<char>>,
    pub bio: Option<Seq<char>>,
    pub avatar_url: Option<Seq<char>>,
    pub theme_preference: Option<Seq<char>>,
    pub is_admin: bool,
    pub is_active: bool,
    pub created_at: Timestamp,
    pub updated_at: Timestamp,
    pub last_login: Option<Timestamp>,
}

impl View for Model {
    type V = ModelView;

    open spec fn view(&self) -> ModelView {
        ModelView {
            id: self.id,
            username: self.username@,
            email: self.email@,
            password_hash: self.password_hash@,
            display_name: opt_text(self.display_name),
            bio: opt_text(self.bio),
            avatar_url: opt_text(self.avatar_url),
            theme_preference: opt_text(self.theme_preference),
            is_admin: self.is_admin,
            is_active: self.is_active,
            created_at: self.created_at,
            updated_at: self.updated_at,
            last_login: self.last_login,
        }
    }
}

/// The account a registration creates at time `now`: active, not an
/// administrator, with an empty profile, and logged in as of `now`.
pub open spec fn registered(
    id: u128,
    username: Seq<char>,
    email: Seq<char>,
    password_hash: Seq<char>,
    now: Timestamp,
) -> ModelView {
    ModelView {
        id,
        username,
        email,
        password_hash,
        display_name: None,
        bio: None,
        avatar_url: None,
        theme_preference: None,
        is_admin: false,
        is_active: true,
        created_at: now,
        updated_at: now,
        last_login: Some(now),
    }
}

/// `outcome` is the account that stores what hashing `password` under
/// `salt` gives, or an error where Argon2 refuses the pair.
pub open spec fn stores_hash(password: Seq<char>, salt: Seq<char>, outcome: Result<Model, AppError>) -> bool {
    match argon2_encoded(encode_utf8(password), salt) {
        Some(encoded) => outcome matches Ok(user) && user.password_hash@ == encoded,
        None => outcome is Err,
    }
}

/// A user name is too short where it has fewer than three bytes.
pub open spec fn username_too_short(username: Seq<char>) -> bool {
    encode_utf8(username).len() < MIN_USERNAME_LEN
}

/// Accepts a user name of at least three bytes. The error is the one the
/// database layer reports.
pub fn check_username(username: &str) -> (outcome: Result<(), String>)
    ensures
        match outcome {
            Ok(()) => !username_too_short(username@),
            Err(message) => username_too_short(username@) && message@
                == "Username must be at least 3 characters long"@,
        },
{
    if username.as_bytes().len() < MIN_USERNAME_LEN {
        Err("Username must be at least 3 characters long".to_owned())
    } else {
        Ok(())
    }
}

impl Model {
    /// The account a registration creates at time `now`.
    pub fn new(id: u128, username: String, email: String, password_hash: String, now: Timestamp) -> (user:
        Model)
        ensures
            user@ == registered(id, username@, email@, password_hash@, now),
    {
        Model {
            id,
            username,
            email,
            password_hash,
            display_name: None,
            bio: None,
            avatar_url: None,
            theme_preference: None,
            is_admin: false,
            is_active: true,
            created_at: now,
            updated_at: now,
            last_login: Some(now),
        }
    }

    /// What is checked before an account is saved: its user name.
    pub fn before_save(&self) -> (outcome: Result<(), String>)
        ensures
            match outcome {
                Ok(()) => !username_too_short(self.username@),
                Err(message) => username_too_short(self.username@) && message@
                    == "Username must be at least 3 characters long"@,
            },
    {
        check_username(self.username.as_str())
    }
}

} // verus!
