//! Verified core of an account service: registration, login, session
//! authentication with a cache-aside identity cache, token issue/validation,
//! and sparse profile updates. Store and HTTP transport are external
//! collaborators; this crate holds the decisions, validations and data
//! invariants, each stated as a contract and checked by Verus.

pub mod cache;
pub mod config;
pub mod errors;
pub mod gate;
pub mod login;
pub mod password;
pub mod pid;
pub mod profile;
pub mod register;
pub mod text;
pub mod token;
pub mod update;
pub mod user;
pub mod validate;
pub mod views;
