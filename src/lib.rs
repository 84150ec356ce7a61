//! Session authentication core: Argon2 password hashing, a credential store
//! of user records, the backend that authenticates credentials and loads
//! identities for the session layer, and the decisions of the HTTP boundary.

pub mod args;
pub mod auth;
pub mod client;
pub mod password;
pub mod responses;
pub mod users;
