//! Plain data of the service: users, credentials, bookmarks and configuration.
//! Identifiers are 128-bit UUID values, instants are seconds since the epoch.

use vstd::prelude::*;

verus! {

/// A registered user, as the credential store keeps it.
#[derive(Debug, Clone)]
pub struct User {
    pub id: u128,
    pub email: String,
    /// The password hash; never the raw password.
    pub password: String,
    pub created_at: i64,
}

/// What registration hands to the credential store: an email and the hash of
/// the password.
#[derive(Debug, Clone)]
pub struct NewUser {
    pub email: String,
    pub password: String,
}

/// The fields of a user that may be shown to a caller: no password hash.
#[derive(Debug, Clone)]
pub struct PublicUser {
    pub id: u128,
    pub email: String,
    pub created_at: i64,
}

impl User {
    /// A copy of this user, field for field.
    pub fn duplicate(&self) -> (r: User)
        ensures
            r == *self,
    {
        User {
            id: self.id,
            email: self.email.clone(),
            password: self.password.clone(),
            created_at: self.created_at,
        }
    }

    /// The user without its password hash.
    pub fn public(&self) -> (r: PublicUser)
        ensures
            r.id == self.id,
            r.email@ == self.email@,
            r.created_at == self.created_at,
    {
        PublicUser { id: self.id, email: self.email.clone(), created_at: self.created_at }
    }
}

/// Credentials sent to register or to log in.
#[derive(Debug, Clone)]
pub struct AuthPayload {
    pub email: String,
    pub password: String,
}

/// A successful login: the session token and the user it was issued for.
#[derive(Debug, Clone)]
pub struct LoginResponse {
    pub token: String,
    pub user: User,
}

/// Process-wide configuration, loaded once at startup.
#[derive(Debug, Clone)]
pub struct Config {
    pub db_url: String,
    /// The secret that signs and verifies session tokens.
    pub jwt_secret: String,
}

/// How many bookmarks one listing returns at most.
pub const BOOKMARK_PAGE: i64 = 10;

/// A bookmark sent by a caller, before it belongs to anyone.
#[derive(Debug, Clone)]
pub struct NewBInput {
    pub title: String,
    pub url: String,
    pub description: Option<String>,
    pub is_favorite: Option<bool>,
}

/// A request to mark a bookmark as favorite or not.
#[derive(Debug, Clone, Copy)]
pub struct FavInput {
    pub bookmark_id: u128,
    pub is_favorite: bool,
}

/// A bookmark to insert, owned by an authenticated user.
#[derive(Debug, Clone)]
pub struct NewBookmark {
    pub user_id: u128,
    pub title: String,
    pub url: String,
    pub description: Option<String>,
    pub is_favorite: Option<bool>,
}

/// A stored bookmark.
#[derive(Debug, Clone)]
pub struct Bookmark {
    pub id: u128,
    pub user_id: Option<u128>,
    pub title: String,
    pub url: String,
    pub description: Option<String>,
    pub is_favorite: Option<bool>,
    pub created_at: i64,
    pub updated_at: i64,
}

impl NewBInput {
    /// The bookmark to insert for the user `user_id`, with the caller's fields.
    pub fn for_user(self, user_id: u128) -> (r: NewBookmark)
        ensures
            r.user_id == user_id,
            r.title == self.title,
            r.url == self.url,
            r.description == self.description,
            r.is_favorite == self.is_favorite,
    {
        NewBookmark {
            user_id,
            title: self.title,
            url: self.url,
            description: self.description,
            is_favorite: self.is_favorite,
        }
    }
}

} // verus!
