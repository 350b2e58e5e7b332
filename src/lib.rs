//! Credential checking, session tokens and request admission for a small
//! CRUD backend.
pub mod model;
pub mod text;
pub mod password;
pub mod error;
pub mod token;
pub mod auth;
pub mod pagination;
pub mod users;
