//! A small URL-shortening library: validating submitted URLs, generating
//! short alphanumeric codes, keeping the table of shortened URLs, and
//! resolving codes back to their original URLs.

pub mod codegen;
pub mod handlers;
pub mod models;
pub mod store;
pub mod text;
