//! Server-side logic of a lightweight Bitwarden-compatible password vault:
//! master-password hashing, bearer/basic authorization decisions, the mapping
//! of stored rows into API objects, and the outcome of every API request.
pub mod api;
pub mod auth;
pub mod config;
pub mod crypto;
pub mod models;
pub mod text;
