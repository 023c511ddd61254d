//! Credential management: password hashing, JWT access and refresh tokens,
//! and the decisions the auth routes make.

pub mod claims;
pub mod flow;
pub mod http;
pub mod jwt;
pub mod password;

pub use claims::{AuthConfig, Claims, TokenKind};
pub use http::AuthUser;
