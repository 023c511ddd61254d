//! Common HTTP server infrastructure for self-hosted servers: structured
//! errors, the JSON response envelope, credential and token handling, and
//! the decisions the server builder and auth routes make.

pub mod auth;
pub mod db;
pub mod error;
pub mod json;
pub mod profile;
pub mod response;
pub mod server;

pub use auth::{AuthUser, Claims};
pub use error::{AuthTokenError, AuthUserError, DbError, ServirError};
pub use response::{ApiResponse, ErrorBody};
