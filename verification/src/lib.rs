//! Verified core of a small authentication web service: user registration,
//! login with Argon2 password hashes and HS256 JSON Web Tokens, token
//! revocation on logout, and the uniform JSON envelope of every reply.
//!
//! The HTTP server, the database and the JSON (de)serialisation live outside
//! this crate; what they hand over and take back is plain data.

pub mod auth;
pub mod handlers;
pub mod ids;
pub mod jwt;
pub mod password;
pub mod response;
pub mod revocation;
pub mod schema;
pub mod user;
pub mod validation;
