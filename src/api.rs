//! The request and response shapes of the HTTP façade, and its error mapping.
pub mod error;
pub mod models;
