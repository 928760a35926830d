//! Form-field validation and session-backed identity for a blogging-platform client.

pub mod auth;
pub mod validations;
