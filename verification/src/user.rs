//! Users: the stored record, the registration and login request bodies, and
//! the body of a successful login.

use vstd::prelude::*;

verus! {

/// A stored user. The password hash is never sent back to a client.
#[derive(Debug, Clone, PartialEq, Eq)]
pub struct Model {
    pub id: u128,
    pub username: String,
    pub email: String,
    pub firstname: String,
    pub lastname: String,
    pub password_hash: String,
    pub is_active: bool,
    pub role: String,
}

/// A stored user.
pub type User = Model;

/// The body of a registration request.
#[derive(Debug, Clone, PartialEq, Eq)]
pub struct CreateUser {
    pub username: String,
    pub email: String,
    pub firstname: String,
    pub lastname: String,
    /// At least 8 characters.
    pub password: String,
    pub is_active: bool,
}

/// The body of a login request.
#[derive(Debug, Clone, PartialEq, Eq)]
pub struct LoginRequest {
    /// A valid e-mail address.
    pub email: String,
    pub password: String,
}

/// The body of a successful login: the access token and the user.
#[derive(Debug, Clone, PartialEq, Eq)]
pub struct AuthResponse {
    pub token: String,
    pub user: User,
}

/// A user row to insert: the role is left to the store's default.
#[derive(Debug, Clone, PartialEq, Eq)]
pub struct NewUser {
    pub id: u128,
    pub username: String,
    pub email: String,
    pub firstname: String,
    pub lastname: String,
    pub password_hash: String,
    pub is_active: bool,
}

} // verus!
