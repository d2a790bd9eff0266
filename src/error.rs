//! Error kinds of the authentication core and their mapping to HTTP-shaped
//! responses.

use vstd::prelude::*;

verus! {

/// Every failure of the authentication core, classified by who can fix it.
#[derive(Debug, Clone, PartialEq, Eq)]
pub enum AuthError {
    /// The token's structure or signature is invalid.
    InvalidToken,
    /// The token's expiry instant has been reached.
    ExpiredToken,
    /// The credential store failed; the text says how.
    DatabaseError(String),
    /// No user matches the given email.
    UserNotFound,
    /// Hashing or token signing failed.
    InternalServerError,
    /// Wrong password, or a token whose subject no longer exists.
    Unauthorized,
    /// Email or password is empty.
    MissingCredentials,
    /// A user with this email is already registered.
    UserExists,
}

/// HTTP status code of each error kind.
pub open spec fn status_of(e: AuthError) -> u16 {
    match e {
        AuthError::InvalidToken => 401,
        AuthError::ExpiredToken => 401,
        AuthError::Unauthorized => 401,
        AuthError::UserNotFound => 404,
        AuthError::MissingCredentials => 400,
        AuthError::UserExists => 400,
        AuthError::DatabaseError(_) => 500,
        AuthError::InternalServerError => 500,
    }
}

/// The generic description of each error kind shown to callers.
pub open spec fn message_of(e: AuthError) -> Seq<char> {
    match e {
        AuthError::InvalidToken => "Invalid token"@,
        AuthError::ExpiredToken => "Token expired"@,
        AuthError::Unauthorized => "Invalid credentials"@,
        AuthError::UserNotFound => "User not found"@,
        AuthError::MissingCredentials => "Email and password are required"@,
        AuthError::UserExists => "User already exists"@,
        AuthError::DatabaseError(_) => "Internal server error"@,
        AuthError::InternalServerError => "Internal server error"@,
    }
}

impl AuthError {
    /// The HTTP status code under which this error crosses the boundary.
    pub fn status_code(&self) -> (r: u16)
        ensures
            r == status_of(*self),
    {
        match self {
            AuthError::InvalidToken => 401,
            AuthError::ExpiredToken => 401,
            AuthError::Unauthorized => 401,
            AuthError::UserNotFound => 404,
            AuthError::MissingCredentials => 400,
            AuthError::UserExists => 400,
            AuthError::DatabaseError(_) => 500,
            AuthError::InternalServerError => 500,
        }
    }

    /// A generic description, which leaks no internal detail.
    pub fn message(&self) -> (r: String)
        ensures
            r@ == message_of(*self),
    {
        match self {
            AuthError::InvalidToken => "Invalid token".to_string(),
            AuthError::ExpiredToken => "Token expired".to_string(),
            AuthError::Unauthorized => "Invalid credentials".to_string(),
            AuthError::UserNotFound => "User not found".to_string(),
            AuthError::MissingCredentials => "Email and password are required".to_string(),
            AuthError::UserExists => "User already exists".to_string(),
            AuthError::DatabaseError(_) => "Internal server error".to_string(),
            AuthError::InternalServerError => "Internal server error".to_string(),
        }
    }
}

/// An error response: a status code and a message for the caller.
pub struct ApiError {
    pub status: u16,
    pub message: String,
}

impl ApiError {
    /// The response for an error of the authentication core.
    pub fn from_auth(e: &AuthError) -> (r: ApiError)
        ensures
            r.status == status_of(*e),
            r.message@ == message_of(*e),
    {
        ApiError { status: e.status_code(), message: e.message() }
    }
}

} // verus!
