/// Credential checks and user look-ups
pub mod auth;
/// Errors of the persistence layer
pub mod error;
