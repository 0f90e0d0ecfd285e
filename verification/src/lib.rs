//! The verified core of a font-sharing web service: request validation,
//! rate limiting, credential handling and the mapping of errors to answers.

pub mod error;
pub mod token;
pub mod text;
pub mod validation;
pub mod ratelimit;
pub mod model;
pub mod auth;
pub mod middleware;
pub mod handlers;
