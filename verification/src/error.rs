//! The error taxonomy of the server and what a client gets to see of it.

use vstd::prelude::*;
use crate::text::prefixed;

verus! {

/// Why a token was not issued or not accepted.
///
/// The request pipeline collapses every variant into one authentication failure before
/// anything reaches a client; the distinction is kept for logs and tests.
#[derive(Clone, Copy, PartialEq, Eq, Structural, Debug)]
pub enum TokenError {
    /// The text does not have the shape of a signed token, or its claims
    /// cannot be read.
    Malformed,
    /// The signature does not match header and claims under the secret.
    SignatureInvalid,
    /// The token is read at or after its expiry.
    Expired,
    /// The subject is not an account id.
    SubjectInvalid,
    /// The claims could not be encoded and signed.
    Signing,
}

impl TokenError {
    /// The text of this error.
    pub open spec fn text(self) -> Seq<char> {
        match self {
            TokenError::Malformed => "token is malformed"@,
            TokenError::SignatureInvalid => "token signature is invalid"@,
            TokenError::Expired => "token has expired"@,
            TokenError::SubjectInvalid => "token subject is invalid"@,
            TokenError::Signing => "token could not be signed"@,
        }
    }

    /// Renders the error as text, for logs.
    pub fn describe(&self) -> (out: String)
        ensures
            out@ == self.text(),
    {
        match self {
            TokenError::Malformed => "token is malformed".to_owned(),
            TokenError::SignatureInvalid => "token signature is invalid".to_owned(),
            TokenError::Expired => "token has expired".to_owned(),
            TokenError::SubjectInvalid => "token subject is invalid".to_owned(),
            TokenError::Signing => "token could not be signed".to_owned(),
        }
    }
}

/// Everything that can go wrong while a request is served.
#[derive(Clone, PartialEq, Eq, Debug)]
pub enum AppError {
    /// A fault of the server itself.
    InternalServerError(String),
    /// The database failed.
    DatabaseError(String),
    /// The caller did not prove who they are: credentials are missing,
    /// malformed or wrong.
    AuthenticationError(String),
    /// The caller is known but lacks the privilege.
    AuthorizationError(String),
    /// The request breaks a rule for its content.
    ValidationError(String),
    /// What was asked for does not exist.
    NotFoundError(String),
    /// A password could not be hashed, or a stored hash is corrupted.
    PasswordHashingError(String),
    /// A token could not be issued or was not accepted.
    JwtError(TokenError),
    /// The request makes no sense as it is.
    BadRequestError(String),
    /// A file could not be scanned.
    FileScanningError(String),
}

/// The mathematical value of an [`AppError`]: the same variants, each
/// carrying its detail as a sequence of characters.
pub enum AppErrorView {
    InternalServerError(Seq<char>),
    DatabaseError(Seq<char>),
    AuthenticationError(Seq<char>),
    AuthorizationError(Seq<char>),
    ValidationError(Seq<char>),
    NotFoundError(Seq<char>),
    PasswordHashingError(Seq<char>),
    JwtError(TokenError),
    BadRequestError(Seq<char>),
    FileScanningError(Seq<char>),
}

impl View for AppError {
    type V = AppErrorView;

    open spec fn view(&self) -> AppErrorView {
        match self {
            AppError::InternalServerError(m) => AppErrorView::InternalServerError(m@),
            AppError::DatabaseError(m) => AppErrorView::DatabaseError(m@),
            AppError::AuthenticationError(m) => AppErrorView::AuthenticationError(m@),
            AppError::AuthorizationError(m) => AppErrorView::AuthorizationError(m@),
            AppError::ValidationError(m) => AppErrorView::ValidationError(m@),
            AppError::NotFoundError(m) => AppErrorView::NotFoundError(m@),
            AppError::PasswordHashingError(m) => AppErrorView::PasswordHashingError(m@),
            AppError::JwtError(e) => AppErrorView::JwtError(*e),
            AppError::BadRequestError(m) => AppErrorView::BadRequestError(m@),
            AppError::FileScanningError(m) => AppErrorView::FileScanningError(m@),
        }
    }
}

impl AppErrorView {
    /// The HTTP status that reports this error.
    pub open spec fn status_code(self) -> int {
        match self {
            AppErrorView::InternalServerError(_) => 500,
            AppErrorView::DatabaseError(_) => 500,
            AppErrorView::AuthenticationError(_) => 401,
            AppErrorView::AuthorizationError(_) => 403,
            AppErrorView::ValidationError(_) => 400,
            AppErrorView::NotFoundError(_) => 404,
            AppErrorView::PasswordHashingError(_) => 500,
            AppErrorView::JwtError(_) => 401,
            AppErrorView::BadRequestError(_) => 400,
            AppErrorView::FileScanningError(_) => 500,
        }
    }

    /// The machine-readable category sent with a status.
    pub open spec fn status_label(self) -> Seq<char> {
        let code = self.status_code();
        if code == 401 {
            "unauthorized"@
        } else if code == 403 {
            "forbidden"@
        } else if code == 404 {
            "not_found"@
        } else if code == 400 {
            "bad_request"@
        } else {
            "error"@
        }
    }

    /// The full text of the error, detail included. This is what gets logged.
    pub open spec fn message(self) -> Seq<char> {
        match self {
            AppErrorView::InternalServerError(m) => "Internal server error: "@ + m,
            AppErrorView::DatabaseError(m) => "Database error: "@ + m,
            AppErrorView::AuthenticationError(m) => "Authentication error: "@ + m,
            AppErrorView::AuthorizationError(m) => "Authorization error: "@ + m,
            AppErrorView::ValidationError(m) => "Validation error: "@ + m,
            AppErrorView::NotFoundError(m) => "Resource not found: "@ + m,
            AppErrorView::PasswordHashingError(m) => "Password hashing error: "@ + m,
            AppErrorView::JwtError(e) => "JWT error: "@ + e.text(),
            AppErrorView::BadRequestError(m) => "Bad request: "@ + m,
            AppErrorView::FileScanningError(m) => "File scanning error: "@ + m,
        }
    }

    /// Whether the error comes from inside the server rather than from what
    /// the client sent.
    pub open spec fn is_internal(self) -> bool {
        self.status_code() == 500
    }

    /// The text a client is shown. An internal error keeps its detail to
    /// itself, and a token error does not say why the token failed.
    pub open spec fn client_message(self) -> Seq<char> {
        if self.is_internal() {
            "Internal server error"@
        } else if self is JwtError {
            "Authentication error: Invalid token"@
        } else {
            self.message()
        }
    }
}

/// The body of an error response: a category for machines and a sentence
/// for people.
#[derive(Clone, PartialEq, Eq, Debug)]
pub struct ErrorResponse {
    pub status: String,
    pub message: String,
}

impl AppError {
    /// Something went wrong inside the server.
    pub fn internal_server_error(err: &str) -> (e: AppError)
        ensures
            e@ == AppErrorView::InternalServerError(err@),
    {
        AppError::InternalServerError(err.to_owned())
    }

    /// The caller did not prove who they are.
    pub fn authentication_error(err: &str) -> (e: AppError)
        ensures
            e@ == AppErrorView::AuthenticationError(err@),
    {
        AppError::AuthenticationError(err.to_owned())
    }

    /// The caller is known but may not do this.
    pub fn authorization_error(err: &str) -> (e: AppError)
        ensures
            e@ == AppErrorView::AuthorizationError(err@),
    {
        AppError::AuthorizationError(err.to_owned())
    }

    /// What was asked for does not exist.
    pub fn not_found_error(err: &str) -> (e: AppError)
        ensures
            e@ == AppErrorView::NotFoundError(err@),
    {
        AppError::NotFoundError(err.to_owned())
    }

    /// The request makes no sense as it is.
    pub fn bad_request_error(err: &str) -> (e: AppError)
        ensures
            e@ == AppErrorView::BadRequestError(err@),
    {
        AppError::BadRequestError(err.to_owned())
    }

    /// A file could not be scanned.
    pub fn file_scanning_error(err: &str) -> (e: AppError)
        ensures
            e@ == AppErrorView::FileScanningError(err@),
    {
        AppError::FileScanningError(err.to_owned())
    }

    /// A password could not be hashed, or a stored hash could not be read.
    pub fn password_hashing_error(err: &str) -> (e: AppError)
        ensures
            e@ == AppErrorView::PasswordHashingError(err@),
    {
        AppError::PasswordHashingError(err.to_owned())
    }

    /// The HTTP status that reports this error.
    pub fn status_code(&self) -> (code: u16)
        ensures
            code == self@.status_code(),
    {
        match self {
            AppError::InternalServerError(_) => 500,
            AppError::DatabaseError(_) => 500,
            AppError::AuthenticationError(_) => 401,
            AppError::AuthorizationError(_) => 403,
            AppError::ValidationError(_) => 400,
            AppError::NotFoundError(_) => 404,
            AppError::PasswordHashingError(_) => 500,
            AppError::JwtError(_) => 401,
            AppError::BadRequestError(_) => 400,
            AppError::FileScanningError(_) => 500,
        }
    }

    /// The full text of the error, for logs.
    pub fn message(&self) -> (out: String)
        ensures
            out@ == self@.message(),
    {
        match self {
            AppError::InternalServerError(m) => prefixed("Internal server error: ", m.as_str()),
            AppError::DatabaseError(m) => prefixed("Database error: ", m.as_str()),
            AppError::AuthenticationError(m) => prefixed("Authentication error: ", m.as_str()),
            AppError::AuthorizationError(m) => prefixed("Authorization error: ", m.as_str()),
            AppError::ValidationError(m) => prefixed("Validation error: ", m.as_str()),
            AppError::NotFoundError(m) => prefixed("Resource not found: ", m.as_str()),
            AppError::PasswordHashingError(m) => prefixed("Password hashing error: ", m.as_str()),
            AppError::JwtError(e) => {
                let detail = e.describe();
                prefixed("JWT error: ", detail.as_str())
            },
            AppError::BadRequestError(m) => prefixed("Bad request: ", m.as_str()),
            AppError::FileScanningError(m) => prefixed("File scanning error: ", m.as_str()),
        }
    }

    /// The body sent to the client: the category of the status, and a
    /// message that never carries internal detail.
    pub fn error_response(&self) -> (body: ErrorResponse)
        ensures
            body.status@ == self@.status_label(),
            body.message@ == self@.client_message(),
    {
        let code = self.status_code();
        let status = if code == 401 {
            "unauthorized".to_owned()
        } else if code == 403 {
            "forbidden".to_owned()
        } else if code == 404 {
            "not_found".to_owned()
        } else if code == 400 {
            "bad_request".to_owned()
        } else {
            "error".to_owned()
        };
        let message = if code == 500 {
            "Internal server error".to_owned()
        } else {
            match self {
                AppError::JwtError(_) => "Authentication error: Invalid token".to_owned(),
                _ => self.message(),
            }
        };
        ErrorResponse { status, message }
    }
}

} // verus!
