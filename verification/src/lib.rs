//! Core of a hackathon-portal web backend: password hashing, signed-token
//! issuance and verification, request authentication and role-based
//! authorization, together with the input validation and export-shaping
//! rules the route handlers rely on.
//!
//! Database access and the HTTP server itself live outside this crate; the
//! functions here are pure decision logic over plain values, with calls into
//! the cryptographic and encoding crates kept behind small trusted wrappers.

pub mod auth;
pub mod error;
pub mod export;
pub mod gate;
pub mod handlers;
pub mod models;
pub mod text;
pub mod utils;

pub use error::AppError;
pub use error::AppResult;
