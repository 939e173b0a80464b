//! The REST layer's decisions: request validation, authorization checks and
//! the shape of error answers.
pub mod auth;
pub mod chain;
pub mod config;
pub mod error;
pub mod health;
pub mod rate_limit;
pub mod requests;
pub mod rows;
pub mod text;
