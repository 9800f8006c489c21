//! Typed client library for the YooKassa HTTP API: authentication, client
//! configuration, request preparation (URLs, idempotence keys, the OAuth rule
//! for webhooks), response classification and the API's data model.

pub mod auth;
pub mod client;
pub mod error;
pub mod http;
pub mod idempotence;
pub mod model;
pub mod operation;
pub mod text;



pub use auth::Auth;
pub use client::{YookassaClient, YookassaClientBuilder};
pub use error::{ApiErrorBody, ErrorCode, YookassaError};
