//! Identity core of an HTTP service: password credentials, signed access and
//! refresh tokens, bearer-header authorization, and the decisions behind the
//! register, login, refresh and profile endpoints.
//!
//! Every function states its result over the models in its module. Calls into
//! the hashing, signing and clock libraries go through small private wrappers
//! whose contracts are assumed; each says in its doc comment what it assumes.

pub mod error;
pub mod config;
pub mod token;
pub mod credential;
pub mod extract;
pub mod user;
pub mod dto;
pub mod auth;
