//! Credential interceptors for tonic clients, and a composite that runs a
//! shared, ordered list of them on every outbound request.

pub mod metadata;
pub mod error;
pub mod credential;
pub mod composite;
