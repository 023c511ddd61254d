//! The error model: every failure the library reports, the HTTP status it
//! maps to, its machine-readable identifier and its structured context.

use vstd::prelude::*;

use crate::json::{json_quote, json_string_literal};

verus! {

// ---------------------------------------------------------------------------
// Mathematical model of an error context
// ---------------------------------------------------------------------------

/// What an [`ErrorContext`] says: an optional error description and an
/// optional `(kind, value)` identifier.
pub struct ContextView {
    pub error: Option<Seq<char>>,
    pub identifier: Option<(Seq<char>, Seq<char>)>,
}

/// A context with an error description and an identifier.
pub open spec fn ctx_full(error: Seq<char>, kind: Seq<char>, value: Seq<char>) -> ContextView {
    ContextView { error: Some(error), identifier: Some((kind, value)) }
}

/// A context with an identifier and no error description.
pub open spec fn ctx_identifier_only(kind: Seq<char>, value: Seq<char>) -> ContextView {
    ContextView { error: None, identifier: Some((kind, value)) }
}

/// A context with an error description and no identifier.
pub open spec fn ctx_error_only(error: Seq<char>) -> ContextView {
    ContextView { error: Some(error), identifier: None }
}

/// The empty context.
pub open spec fn ctx_empty() -> ContextView {
    ContextView { error: None, identifier: None }
}

/// The human-readable rendering of an error: `ERROR_ID`, then `. kind: value`
/// when an identifier is present, then ` (error)` when a description is present.
pub open spec fn display_text(error_id: Seq<char>, ctx: ContextView) -> Seq<char> {
    let with_id = match ctx.identifier {
        Some((kind, value)) => error_id + ". "@ + kind + ": "@ + value,
        None => error_id,
    };
    match ctx.error {
        Some(e) => with_id + " ("@ + e + ")"@,
        None => with_id,
    }
}

/// The JSON object a context serializes to: a flat map whose first entry is
/// `"error"` (the description as a string, or `null`), followed by the
/// identifier's kind as key and its value, when there is one.
pub open spec fn context_json(ctx: ContextView) -> Seq<char> {
    let error_entry = "{\"error\":"@ + match ctx.error {
        Some(e) => json_string_literal(e),
        None => "null"@,
    };
    let id_entry = match ctx.identifier {
        Some((kind, value)) => ","@ + json_string_literal(kind) + ":"@ + json_string_literal(value),
        None => Seq::<char>::empty(),
    };
    error_entry + id_entry + "}"@
}

// ---------------------------------------------------------------------------
// Identifier and ErrorContext
// ---------------------------------------------------------------------------

/// An identifier for the resource an error relates to, e.g.
/// `Identifier { kind: "username", value: "john_doe" }`.
#[derive(Debug)]
pub struct Identifier {
    pub kind: &'static str,
    pub value: String,
}

impl Identifier {
    /// Creates a new identifier with the given kind and value.
    pub fn new(kind: &'static str, value: &str) -> (id: Identifier)
        ensures
            id.kind@ == kind@,
            id.value@ == value@,
    {
        Identifier { kind, value: value.to_owned() }
    }

    /// The kind of the identifier (e.g. `"username"`, `"user_id"`, `"url"`).
    pub fn kind(&self) -> (k: &'static str)
        ensures
            k@ == self.kind@,
    {
        self.kind
    }

    /// The value of the identifier (e.g. `"john_doe"`).
    pub fn value(&self) -> (v: &str)
        ensures
            v@ == self.value@,
    {
        self.value.as_str()
    }
}

/// Structured error context carried in API error responses: an optional
/// error description and an optional identifier.
#[derive(Debug)]
pub struct ErrorContext {
    pub error: Option<String>,
    pub identifier: Option<Identifier>,
}

impl View for ErrorContext {
    type V = ContextView;

    open spec fn view(&self) -> ContextView {
        ContextView {
            error: match self.error {
                Some(e) => Some(e@),
                None => None,
            },
            identifier: match self.identifier {
                Some(id) => Some((id.kind@, id.value@)),
                None => None,
            },
        }
    }
}

impl ErrorContext {
    /// A context with both an (optional) error description and an identifier.
    pub fn new(error: Option<&str>, kind: &'static str, value: &str) -> (ctx: ErrorContext)
        ensures
            ctx@ == (ContextView {
                error: match error {
                    Some(e) => Some(e@),
                    None => None,
                },
                identifier: Some((kind@, value@)),
            }),
    {
        let error = match error {
            Some(e) => Some(e.to_owned()),
            None => None,
        };
        ErrorContext { error, identifier: Some(Identifier::new(kind, value)) }
    }

    /// A context with only an error description.
    pub fn error_only(error: &str) -> (ctx: ErrorContext)
        ensures
            ctx@ == ctx_error_only(error@),
    {
        ErrorContext { error: Some(error.to_owned()), identifier: None }
    }

    /// The empty context (no description, no identifier).
    pub fn empty() -> (ctx: ErrorContext)
        ensures
            ctx@ == ctx_empty(),
    {
        ErrorContext { error: None, identifier: None }
    }

    /// Serializes this context as its flat JSON map, e.g.
    /// `{"error":null,"username":"alice"}`.
    pub fn to_json(&self) -> (s: String)
        ensures
            s@ == context_json(self@),
    {
        proof {
            reveal_strlit("{\"error\":");
            reveal_strlit("null");
            reveal_strlit(",");
            reveal_strlit(":");
            reveal_strlit("}");
        }
        let mut s = "{\"error\":".to_owned();
        match &self.error {
            Some(e) => s.append(json_quote(e.as_str()).as_str()),
            None => s.append("null"),
        }
        match &self.identifier {
            Some(id) => {
                s.append(",");
                s.append(json_quote(id.kind).as_str());
                s.append(":");
                s.append(json_quote(id.value.as_str()).as_str());
            },
            None => {},
        }
        s.append("}");
        s
    }

    /// Renders this context after `error_id` as `ERROR_ID[. kind: value][ (error)]`.
    pub fn render(&self, error_id: &str) -> (s: String)
        ensures
            s@ == display_text(error_id@, self@),
    {
        let mut s = error_id.to_owned();
        match &self.identifier {
            Some(id) => {
                s.append(". ");
                s.append(id.kind);
                s.append(": ");
                s.append(id.value.as_str());
            },
            None => {},
        }
        match &self.error {
            Some(e) => {
                s.append(" (");
                s.append(e.as_str());
                s.append(")");
            },
            None => {},
        }
        s
    }
}

// ---------------------------------------------------------------------------
// HTTP status codes used by the library
// ---------------------------------------------------------------------------

/// `200 OK`.
pub const STATUS_OK: u16 = 200;

/// `400 Bad Request`.
pub const STATUS_BAD_REQUEST: u16 = 400;

/// `401 Unauthorized`.
pub const STATUS_UNAUTHORIZED: u16 = 401;

/// `404 Not Found`.
pub const STATUS_NOT_FOUND: u16 = 404;

/// `409 Conflict`.
pub const STATUS_CONFLICT: u16 = 409;

/// `500 Internal Server Error`.
pub const STATUS_INTERNAL_SERVER_ERROR: u16 = 500;

// ---------------------------------------------------------------------------
// DbError
// ---------------------------------------------------------------------------

/// Database-level failure. Every variant maps to `500 Internal Server Error`
/// and carries the underlying database error message.
#[derive(Debug)]
pub enum DbError {
    Connection { url: String, error: String },
    Migration { error: String },
    UserCreate { username: String, error: String },
    UserFindByUsername { username: String, error: String },
    UserFindById { user_id: String, error: String },
    StoreRefreshToken { username: String, error: String },
    DeleteRefreshTokensForUser { username: String, error: String },
    ConsumeRefreshToken { error: String },
    Unknown { operation: &'static str, error: String },
}

impl DbError {
    /// The HTTP status of this error.
    pub open spec fn spec_status(&self) -> u16 {
        STATUS_INTERNAL_SERVER_ERROR
    }

    /// The machine-readable identifier of this error.
    pub open spec fn spec_error_id(&self) -> Seq<char> {
        match self {
            DbError::Connection { .. } => "DB_CONNECTION_FAILED"@,
            DbError::Migration { .. } => "DB_MIGRATION_FAILED"@,
            DbError::UserCreate { .. } => "DB_USER_CREATE_FAILED"@,
            DbError::UserFindByUsername { .. } => "DB_USER_FIND_BY_USERNAME_FAILED"@,
            DbError::UserFindById { .. } => "DB_USER_FIND_BY_ID_FAILED"@,
            DbError::StoreRefreshToken { .. } => "DB_STORE_REFRESH_TOKEN_FAILED"@,
            DbError::DeleteRefreshTokensForUser { .. } => "DB_DELETE_REFRESH_TOKENS_FOR_USER_FAILED"@,
            DbError::ConsumeRefreshToken { .. } => "DB_CONSUME_REFRESH_TOKEN_FAILED"@,
            DbError::Unknown { .. } => "DB_UNKNOWN"@,
        }
    }

    /// The structured context of this error.
    pub open spec fn spec_context(&self) -> ContextView {
        match self {
            DbError::Connection { url, error } => ctx_full(error@, "url"@, url@),
            DbError::Migration { error } => ctx_error_only(error@),
            DbError::UserCreate { username, error } => ctx_full(error@, "username"@, username@),
            DbError::UserFindByUsername { username, error } => ctx_full(
                error@,
                "username"@,
                username@,
            ),
            DbError::UserFindById { user_id, error } => ctx_full(error@, "user_id"@, user_id@),
            DbError::StoreRefreshToken { username, error } => ctx_full(
                error@,
                "username"@,
                username@,
            ),
            DbError::DeleteRefreshTokensForUser { username, error } => ctx_full(
                error@,
                "username"@,
                username@,
            ),
            DbError::ConsumeRefreshToken { error } => ctx_error_only(error@),
            DbError::Unknown { operation, error } => ctx_full(error@, "operation"@, operation@),
        }
    }

    /// Failed to connect to the database (`DB_CONNECTION_FAILED`; context `url`, `error`).
    pub fn connection(url: &str, error: &str) -> (e: ServirError)
        ensures
            e matches ServirError::Db(DbError::Connection { url: u, error: m }) && u@ == url@
                && m@ == error@,
    {
        ServirError::Db(DbError::Connection { url: url.to_owned(), error: error.to_owned() })
    }

    /// Schema migration failed (`DB_MIGRATION_FAILED`; context `error`).
    pub fn migration(error: &str) -> (e: ServirError)
        ensures
            e matches ServirError::Db(DbError::Migration { error: m }) && m@ == error@,
    {
        ServirError::Db(DbError::Migration { error: error.to_owned() })
    }

    /// Failed to insert a new user (`DB_USER_CREATE_FAILED`; context `username`, `error`).
    pub fn user_create(username: &str, error: &str) -> (e: ServirError)
        ensures
            e matches ServirError::Db(DbError::UserCreate { username: u, error: m }) && u@
                == username@ && m@ == error@,
    {
        ServirError::Db(
            DbError::UserCreate { username: username.to_owned(), error: error.to_owned() },
        )
    }

    /// Failed to look up a user by username (`DB_USER_FIND_BY_USERNAME_FAILED`).
    pub fn user_find_by_username(username: &str, error: &str) -> (e: ServirError)
        ensures
            e matches ServirError::Db(DbError::UserFindByUsername { username: u, error: m })
                && u@ == username@ && m@ == error@,
    {
        ServirError::Db(
            DbError::UserFindByUsername { username: username.to_owned(), error: error.to_owned() },
        )
    }

    /// Failed to look up a user by ID (`DB_USER_FIND_BY_ID_FAILED`; context `user_id`, `error`).
    pub fn user_find_by_id(user_id: &str, error: &str) -> (e: ServirError)
        ensures
            e matches ServirError::Db(DbError::UserFindById { user_id: u, error: m }) && u@
                == user_id@ && m@ == error@,
    {
        ServirError::Db(
            DbError::UserFindById { user_id: user_id.to_owned(), error: error.to_owned() },
        )
    }

    /// Failed to persist a refresh token (`DB_STORE_REFRESH_TOKEN_FAILED`).
    pub fn store_refresh_token(username: &str, error: &str) -> (e: ServirError)
        ensures
            e matches ServirError::Db(DbError::StoreRefreshToken { username: u, error: m })
                && u@ == username@ && m@ == error@,
    {
        ServirError::Db(
            DbError::StoreRefreshToken { username: username.to_owned(), error: error.to_owned() },
        )
    }

    /// Failed to delete refresh tokens for a user (`DB_DELETE_REFRESH_TOKENS_FOR_USER_FAILED`).
    pub fn delete_refresh_tokens_for_user(username: &str, error: &str) -> (e: ServirError)
        ensures
            e matches ServirError::Db(
                DbError::DeleteRefreshTokensForUser { username: u, error: m },
            ) && u@ == username@ && m@ == error@,
    {
        ServirError::Db(
            DbError::DeleteRefreshTokensForUser {
                username: username.to_owned(),
                error: error.to_owned(),
            },
        )
    }

    /// Failed to consume a refresh token (`DB_CONSUME_REFRESH_TOKEN_FAILED`; context `error`).
    pub fn consume_refresh_token(error: &str) -> (e: ServirError)
        ensures
            e matches ServirError::Db(DbError::ConsumeRefreshToken { error: m }) && m@ == error@,
    {
        ServirError::Db(DbError::ConsumeRefreshToken { error: error.to_owned() })
    }

    /// Catch-all for unclassified database operations (`DB_UNKNOWN`; context `operation`, `error`).
    pub fn unknown(operation: &'static str, error: &str) -> (e: ServirError)
        ensures
            e matches ServirError::Db(DbError::Unknown { operation: o, error: m }) && o@
                == operation@ && m@ == error@,
    {
        ServirError::Db(DbError::Unknown { operation, error: error.to_owned() })
    }

    /// The HTTP status of this error.
    pub fn status_code(&self) -> (s: u16)
        ensures
            s == self.spec_status(),
    {
        STATUS_INTERNAL_SERVER_ERROR
    }

    /// The machine-readable identifier of this error.
    pub fn error_id(&self) -> (id: &'static str)
        ensures
            id@ == self.spec_error_id(),
    {
        match self {
            DbError::Connection { .. } => "DB_CONNECTION_FAILED",
            DbError::Migration { .. } => "DB_MIGRATION_FAILED",
            DbError::UserCreate { .. } => "DB_USER_CREATE_FAILED",
            DbError::UserFindByUsername { .. } => "DB_USER_FIND_BY_USERNAME_FAILED",
            DbError::UserFindById { .. } => "DB_USER_FIND_BY_ID_FAILED",
            DbError::StoreRefreshToken { .. } => "DB_STORE_REFRESH_TOKEN_FAILED",
            DbError::DeleteRefreshTokensForUser { .. } => "DB_DELETE_REFRESH_TOKENS_FOR_USER_FAILED",
            DbError::ConsumeRefreshToken { .. } => "DB_CONSUME_REFRESH_TOKEN_FAILED",
            DbError::Unknown { .. } => "DB_UNKNOWN",
        }
    }

    /// The structured context of this error.
    pub fn context(&self) -> (ctx: ErrorContext)
        ensures
            ctx@ == self.spec_context(),
    {
        match self {
            DbError::Connection { url, error } => ErrorContext::new(
                Some(error.as_str()),
                "url",
                url.as_str(),
            ),
            DbError::Migration { error } => ErrorContext::error_only(error.as_str()),
            DbError::UserCreate { username, error } => ErrorContext::new(
                Some(error.as_str()),
                "username",
                username.as_str(),
            ),
            DbError::UserFindByUsername { username, error } => ErrorContext::new(
                Some(error.as_str()),
                "username",
                username.as_str(),
            ),
            DbError::UserFindById { user_id, error } => ErrorContext::new(
                Some(error.as_str()),
                "user_id",
                user_id.as_str(),
            ),
            DbError::StoreRefreshToken { username, error } => ErrorContext::new(
                Some(error.as_str()),
                "username",
                username.as_str(),
            ),
            DbError::DeleteRefreshTokensForUser { username, error } => ErrorContext::new(
                Some(error.as_str()),
                "username",
                username.as_str(),
            ),
            DbError::ConsumeRefreshToken { error } => ErrorContext::error_only(error.as_str()),
            DbError::Unknown { operation, error } => ErrorContext::new(
                Some(error.as_str()),
                "operation",
                operation,
            ),
        }
    }

    /// Renders the error as `ERROR_ID[. kind: value][ (error)]`.
    pub fn to_string(&self) -> (s: String)
        ensures
            s@ == display_text(self.spec_error_id(), self.spec_context()),
    {
        self.context().render(self.error_id())
    }
}

// ---------------------------------------------------------------------------
// AuthUserError
// ---------------------------------------------------------------------------

/// User credential management failure: registration, login and password errors.
#[derive(Debug)]
pub enum AuthUserError {
    EmptyUsername,
    WeakPassword,
    AlreadyExists { username: String, error: String },
    InvalidCredentials { username: String },
    PasswordHashFailed { error: String },
}

impl AuthUserError {
    /// The HTTP status of this error.
    pub open spec fn spec_status(&self) -> u16 {
        match self {
            AuthUserError::EmptyUsername | AuthUserError::WeakPassword => STATUS_BAD_REQUEST,
            AuthUserError::AlreadyExists { .. } => STATUS_CONFLICT,
            AuthUserError::InvalidCredentials { .. } => STATUS_UNAUTHORIZED,
            AuthUserError::PasswordHashFailed { .. } => STATUS_INTERNAL_SERVER_ERROR,
        }
    }

    /// The machine-readable identifier of this error.
    pub open spec fn spec_error_id(&self) -> Seq<char> {
        match self {
            AuthUserError::EmptyUsername => "EMPTY_USERNAME"@,
            AuthUserError::WeakPassword => "WEAK_PASSWORD"@,
            AuthUserError::AlreadyExists { .. } => "ALREADY_EXISTS"@,
            AuthUserError::InvalidCredentials { .. } => "INVALID_CREDENTIALS"@,
            AuthUserError::PasswordHashFailed { .. } => "PASSWORD_HASH_FAILED"@,
        }
    }

    /// The structured context of this error.
    pub open spec fn spec_context(&self) -> ContextView {
        match self {
            AuthUserError::AlreadyExists { username, error } => ctx_full(
                error@,
                "username"@,
                username@,
            ),
            AuthUserError::InvalidCredentials { username } => ctx_identifier_only(
                "username"@,
                username@,
            ),
            AuthUserError::PasswordHashFailed { error } => ctx_error_only(error@),
            _ => ctx_empty(),
        }
    }

    /// Registration with an empty username (`EMPTY_USERNAME`, 400, no context).
    pub fn empty_username() -> (e: ServirError)
        ensures
            e == ServirError::AuthUser(AuthUserError::EmptyUsername),
    {
        ServirError::AuthUser(AuthUserError::EmptyUsername)
    }

    /// Registration with a password shorter than 8 characters (`WEAK_PASSWORD`, 400, no context).
    pub fn weak_password() -> (e: ServirError)
        ensures
            e == ServirError::AuthUser(AuthUserError::WeakPassword),
    {
        ServirError::AuthUser(AuthUserError::WeakPassword)
    }

    /// Username already taken (`ALREADY_EXISTS`, 409; context `username`, `error`).
    pub fn already_exists(username: &str, error: &str) -> (e: ServirError)
        ensures
            e matches ServirError::AuthUser(AuthUserError::AlreadyExists { username: u, error: m })
                && u@ == username@ && m@ == error@,
    {
        ServirError::AuthUser(
            AuthUserError::AlreadyExists { username: username.to_owned(), error: error.to_owned() },
        )
    }

    /// Wrong password or unknown user (`INVALID_CREDENTIALS`, 401; context `username`).
    pub fn invalid_credentials(username: &str) -> (e: ServirError)
        ensures
            e matches ServirError::AuthUser(AuthUserError::InvalidCredentials { username: u })
                && u@ == username@,
    {
        ServirError::AuthUser(AuthUserError::InvalidCredentials { username: username.to_owned() })
    }

    /// Password hashing failed internally (`PASSWORD_HASH_FAILED`, 500; context `error`).
    pub fn password_hash_failed(error: &str) -> (e: ServirError)
        ensures
            e matches ServirError::AuthUser(AuthUserError::PasswordHashFailed { error: m }) && m@
                == error@,
    {
        ServirError::AuthUser(AuthUserError::PasswordHashFailed { error: error.to_owned() })
    }

    /// The HTTP status of this error.
    pub fn status_code(&self) -> (s: u16)
        ensures
            s == self.spec_status(),
    {
        match self {
            AuthUserError::EmptyUsername | AuthUserError::WeakPassword => STATUS_BAD_REQUEST,
            AuthUserError::AlreadyExists { .. } => STATUS_CONFLICT,
            AuthUserError::InvalidCredentials { .. } => STATUS_UNAUTHORIZED,
            AuthUserError::PasswordHashFailed { .. } => STATUS_INTERNAL_SERVER_ERROR,
        }
    }

    /// The machine-readable identifier of this error.
    pub fn error_id(&self) -> (id: &'static str)
        ensures
            id@ == self.spec_error_id(),
    {
        match self {
            AuthUserError::EmptyUsername => "EMPTY_USERNAME",
            AuthUserError::WeakPassword => "WEAK_PASSWORD",
            AuthUserError::AlreadyExists { .. } => "ALREADY_EXISTS",
            AuthUserError::InvalidCredentials { .. } => "INVALID_CREDENTIALS",
            AuthUserError::PasswordHashFailed { .. } => "PASSWORD_HASH_FAILED",
        }
    }

    /// The structured context of this error.
    pub fn context(&self) -> (ctx: ErrorContext)
        ensures
            ctx@ == self.spec_context(),
    {
        match self {
            AuthUserError::AlreadyExists { username, error } => ErrorContext::new(
                Some(error.as_str()),
                "username",
                username.as_str(),
            ),
            AuthUserError::InvalidCredentials { username } => ErrorContext::new(
                None,
                "username",
                username.as_str(),
            ),
            AuthUserError::PasswordHashFailed { error } => ErrorContext::error_only(error.as_str()),
            _ => ErrorContext::empty(),
        }
    }

    /// Renders the error as `ERROR_ID[. kind: value][ (error)]`.
    pub fn to_string(&self) -> (s: String)
        ensures
            s@ == display_text(self.spec_error_id(), self.spec_context()),
    {
        self.context().render(self.error_id())
    }
}

// ---------------------------------------------------------------------------
// AuthTokenError
// ---------------------------------------------------------------------------

/// Token lifecycle failure: verification, refresh rotation and encoding errors.
#[derive(Debug)]
pub enum AuthTokenError {
    Expired,
    Invalid { error: String },
    MissingHeader,
    WrongKind,
    InvalidRefreshToken,
    UserNotFound { user_id: String },
    MissingLayer,
    EncodeFailed { error: String },
}

impl AuthTokenError {
    /// The HTTP status of this error.
    pub open spec fn spec_status(&self) -> u16 {
        match self {
            AuthTokenError::MissingLayer | AuthTokenError::EncodeFailed { .. } =>
                STATUS_INTERNAL_SERVER_ERROR,
            _ => STATUS_UNAUTHORIZED,
        }
    }

    /// The machine-readable identifier of this error.
    pub open spec fn spec_error_id(&self) -> Seq<char> {
        match self {
            AuthTokenError::Expired => "TOKEN_EXPIRED"@,
            AuthTokenError::Invalid { .. } => "TOKEN_INVALID"@,
            AuthTokenError::MissingHeader => "MISSING_AUTHORIZATION_HEADER"@,
            AuthTokenError::WrongKind => "WRONG_TOKEN_KIND"@,
            AuthTokenError::InvalidRefreshToken => "INVALID_REFRESH_TOKEN"@,
            AuthTokenError::UserNotFound { .. } => "USER_NOT_FOUND"@,
            AuthTokenError::MissingLayer => "AUTH_LAYER_MISSING"@,
            AuthTokenError::EncodeFailed { .. } => "TOKEN_ENCODE_FAILED"@,
        }
    }

    /// The structured context of this error.
    pub open spec fn spec_context(&self) -> ContextView {
        match self {
            AuthTokenError::Invalid { error } => ctx_error_only(error@),
            AuthTokenError::UserNotFound { user_id } => ctx_identifier_only("user_id"@, user_id@),
            AuthTokenError::EncodeFailed { error } => ctx_error_only(error@),
            _ => ctx_empty(),
        }
    }

    /// The token's `exp` claim is in the past (`TOKEN_EXPIRED`, 401).
    pub fn expired() -> (e: ServirError)
        ensures
            e == ServirError::AuthToken(AuthTokenError::Expired),
    {
        ServirError::AuthToken(AuthTokenError::Expired)
    }

    /// The token could not be decoded or its signature is wrong (`TOKEN_INVALID`, 401).
    pub fn invalid(error: &str) -> (e: ServirError)
        ensures
            e matches ServirError::AuthToken(AuthTokenError::Invalid { error: m }) && m@ == error@,
    {
        ServirError::AuthToken(AuthTokenError::Invalid { error: error.to_owned() })
    }

    /// No `Authorization: Bearer <token>` header (`MISSING_AUTHORIZATION_HEADER`, 401).
    pub fn missing_header() -> (e: ServirError)
        ensures
            e == ServirError::AuthToken(AuthTokenError::MissingHeader),
    {
        ServirError::AuthToken(AuthTokenError::MissingHeader)
    }

    /// An access token was used where a refresh token is required, or vice
    /// versa (`WRONG_TOKEN_KIND`, 401).
    pub fn wrong_kind() -> (e: ServirError)
        ensures
            e == ServirError::AuthToken(AuthTokenError::WrongKind),
    {
        ServirError::AuthToken(AuthTokenError::WrongKind)
    }

    /// The refresh token was already consumed or revoked (`INVALID_REFRESH_TOKEN`, 401).
    pub fn invalid_refresh_token() -> (e: ServirError)
        ensures
            e == ServirError::AuthToken(AuthTokenError::InvalidRefreshToken),
    {
        ServirError::AuthToken(AuthTokenError::InvalidRefreshToken)
    }

    /// The `sub` claim names a user that no longer exists (`USER_NOT_FOUND`, 401).
    pub fn user_not_found(user_id: &str) -> (e: ServirError)
        ensures
            e matches ServirError::AuthToken(AuthTokenError::UserNotFound { user_id: u }) && u@
                == user_id@,
    {
        ServirError::AuthToken(AuthTokenError::UserNotFound { user_id: user_id.to_owned() })
    }

    /// The auth layer was not applied to the router (`AUTH_LAYER_MISSING`, 500).
    pub fn missing_layer() -> (e: ServirError)
        ensures
            e == ServirError::AuthToken(AuthTokenError::MissingLayer),
    {
        ServirError::AuthToken(AuthTokenError::MissingLayer)
    }

    /// Token encoding failed internally (`TOKEN_ENCODE_FAILED`, 500).
    pub fn encode_failed(error: &str) -> (e: ServirError)
        ensures
            e matches ServirError::AuthToken(AuthTokenError::EncodeFailed { error: m }) && m@
                == error@,
    {
        ServirError::AuthToken(AuthTokenError::EncodeFailed { error: error.to_owned() })
    }

    /// The HTTP status of this error.
    pub fn status_code(&self) -> (s: u16)
        ensures
            s == self.spec_status(),
    {
        match self {
            AuthTokenError::MissingLayer | AuthTokenError::EncodeFailed { .. } =>
                STATUS_INTERNAL_SERVER_ERROR,
            _ => STATUS_UNAUTHORIZED,
        }
    }

    /// The machine-readable identifier of this error.
    pub fn error_id(&self) -> (id: &'static str)
        ensures
            id@ == self.spec_error_id(),
    {
        match self {
            AuthTokenError::Expired => "TOKEN_EXPIRED",
            AuthTokenError::Invalid { .. } => "TOKEN_INVALID",
            AuthTokenError::MissingHeader => "MISSING_AUTHORIZATION_HEADER",
            AuthTokenError::WrongKind => "WRONG_TOKEN_KIND",
            AuthTokenError::InvalidRefreshToken => "INVALID_REFRESH_TOKEN",
            AuthTokenError::UserNotFound { .. } => "USER_NOT_FOUND",
            AuthTokenError::MissingLayer => "AUTH_LAYER_MISSING",
            AuthTokenError::EncodeFailed { .. } => "TOKEN_ENCODE_FAILED",
        }
    }

    /// The structured context of this error.
    pub fn context(&self) -> (ctx: ErrorContext)
        ensures
            ctx@ == self.spec_context(),
    {
        match self {
            AuthTokenError::Invalid { error } => ErrorContext::error_only(error.as_str()),
            AuthTokenError::UserNotFound { user_id } => ErrorContext::new(
                None,
                "user_id",
                user_id.as_str(),
            ),
            AuthTokenError::EncodeFailed { error } => ErrorContext::error_only(error.as_str()),
            _ => ErrorContext::empty(),
        }
    }

    /// Renders the error as `ERROR_ID[. kind: value][ (error)]`.
    pub fn to_string(&self) -> (s: String)
        ensures
            s@ == display_text(self.spec_error_id(), self.spec_context()),
    {
        self.context().render(self.error_id())
    }
}

// ---------------------------------------------------------------------------
// ServirError
// ---------------------------------------------------------------------------

/// Declares `std::io::Error` to Verus as an opaque type, so that
/// [`ServirError::Io`] can carry it; nothing is claimed of its contents.
#[verifier::external_type_specification]
#[verifier::external_body]
pub struct ExIoError(std::io::Error);

/// Top-level error type for all operations of the library.
///
/// Its HTTP rendering is the error envelope
/// `{"status":"error","error":{"error_id":..,"context":{"error":..,..}}}`.
#[derive(Debug)]
pub enum ServirError {
    Db(DbError),
    AuthUser(AuthUserError),
    AuthToken(AuthTokenError),
    BadRequest { message: String },
    NotFound,
    Io(std::io::Error),
}

impl ServirError {
    /// The HTTP status of this error.
    pub open spec fn spec_status(&self) -> u16 {
        match self {
            ServirError::Db(e) => e.spec_status(),
            ServirError::AuthUser(e) => e.spec_status(),
            ServirError::AuthToken(e) => e.spec_status(),
            ServirError::BadRequest { .. } => STATUS_BAD_REQUEST,
            ServirError::NotFound => STATUS_NOT_FOUND,
            ServirError::Io(_) => STATUS_INTERNAL_SERVER_ERROR,
        }
    }

    /// The machine-readable identifier of this error.
    pub open spec fn spec_error_id(&self) -> Seq<char> {
        match self {
            ServirError::Db(e) => e.spec_error_id(),
            ServirError::AuthUser(e) => e.spec_error_id(),
            ServirError::AuthToken(e) => e.spec_error_id(),
            ServirError::BadRequest { .. } => "BAD_REQUEST"@,
            ServirError::NotFound => "NOT_FOUND"@,
            ServirError::Io(_) => "IO_ERROR"@,
        }
    }

    /// Whether `ctx` is the structured context of this error. It is exactly
    /// determined for every variant but `Io`, whose description is the
    /// `Display` text of the I/O error.
    pub open spec fn has_context(&self, ctx: ContextView) -> bool {
        match self {
            ServirError::Db(e) => ctx == e.spec_context(),
            ServirError::AuthUser(e) => ctx == e.spec_context(),
            ServirError::AuthToken(e) => ctx == e.spec_context(),
            ServirError::BadRequest { message } => ctx == ctx_error_only(message@),
            ServirError::NotFound => ctx == ctx_empty(),
            ServirError::Io(e) => exists|text: String|
                #![trigger text@]
                vstd::string::to_string_from_display_ensures::<std::io::Error>(&e, text)
                    && ctx == ctx_error_only(text@),
        }
    }

    /// Request body could not be parsed (`BAD_REQUEST`, 400; context `error`).
    pub fn bad_request(message: &str) -> (e: ServirError)
        ensures
            e matches ServirError::BadRequest { message: m } && m@ == message@,
    {
        ServirError::BadRequest { message: message.to_owned() }
    }

    /// The HTTP status of this error.
    pub fn status_code(&self) -> (s: u16)
        ensures
            s == self.spec_status(),
    {
        match self {
            ServirError::Db(e) => e.status_code(),
            ServirError::AuthUser(e) => e.status_code(),
            ServirError::AuthToken(e) => e.status_code(),
            ServirError::BadRequest { .. } => STATUS_BAD_REQUEST,
            ServirError::NotFound => STATUS_NOT_FOUND,
            ServirError::Io(_) => STATUS_INTERNAL_SERVER_ERROR,
        }
    }

    /// The machine-readable identifier of this error.
    pub fn error_id(&self) -> (id: &'static str)
        ensures
            id@ == self.spec_error_id(),
    {
        match self {
            ServirError::Db(e) => e.error_id(),
            ServirError::AuthUser(e) => e.error_id(),
            ServirError::AuthToken(e) => e.error_id(),
            ServirError::BadRequest { .. } => "BAD_REQUEST",
            ServirError::NotFound => "NOT_FOUND",
            ServirError::Io(_) => "IO_ERROR",
        }
    }

    /// The structured context of this error.
    pub fn context(&self) -> (ctx: ErrorContext)
        ensures
            self.has_context(ctx@),
    {
        match self {
            ServirError::Db(e) => e.context(),
            ServirError::AuthUser(e) => e.context(),
            ServirError::AuthToken(e) => e.context(),
            ServirError::BadRequest { message } => ErrorContext::error_only(message.as_str()),
            ServirError::NotFound => ErrorContext::empty(),
            ServirError::Io(e) => {
                let text = e.to_string();
                ErrorContext::error_only(text.as_str())
            },
        }
    }

    /// Renders the error as `ERROR_ID[. kind: value][ (error)]`.
    pub fn to_string(&self) -> (s: String)
        ensures
            exists|ctx: ContextView|
                self.has_context(ctx) && s@ == display_text(self.spec_error_id(), ctx),
    {
        let ctx = self.context();
        ctx.render(self.error_id())
    }
}

// --- Conversions for `?` propagation ---

impl From<DbError> for ServirError {
    fn from(e: DbError) -> (r: ServirError) {
        ServirError::Db(e)
    }
}

impl vstd::std_specs::convert::FromSpecImpl<DbError> for ServirError {
    open spec fn obeys_from_spec() -> bool {
        true
    }

    open spec fn from_spec(e: DbError) -> ServirError {
        ServirError::Db(e)
    }
}

impl From<AuthUserError> for ServirError {
    fn from(e: AuthUserError) -> (r: ServirError) {
        ServirError::AuthUser(e)
    }
}

impl vstd::std_specs::convert::FromSpecImpl<AuthUserError> for ServirError {
    open spec fn obeys_from_spec() -> bool {
        true
    }

    open spec fn from_spec(e: AuthUserError) -> ServirError {
        ServirError::AuthUser(e)
    }
}

impl From<AuthTokenError> for ServirError {
    fn from(e: AuthTokenError) -> (r: ServirError) {
        ServirError::AuthToken(e)
    }
}

impl vstd::std_specs::convert::FromSpecImpl<AuthTokenError> for ServirError {
    open spec fn obeys_from_spec() -> bool {
        true
    }

    open spec fn from_spec(e: AuthTokenError) -> ServirError {
        ServirError::AuthToken(e)
    }
}

impl From<std::io::Error> for ServirError {
    fn from(e: std::io::Error) -> (r: ServirError) {
        ServirError::Io(e)
    }
}

impl vstd::std_specs::convert::FromSpecImpl<std::io::Error> for ServirError {
    open spec fn obeys_from_spec() -> bool {
        true
    }

    open spec fn from_spec(e: std::io::Error) -> ServirError {
        ServirError::Io(e)
    }
}

} // verus!
