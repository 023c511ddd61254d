use axum::http::StatusCode;
use servir::error::{ErrorContext, STATUS_CONFLICT, STATUS_UNAUTHORIZED};
use servir::{AuthTokenError, AuthUserError, DbError, ServirError};

#[test]
fn display_with_identifier_and_error() {
    let err = DbError::Connection {
        url: "sqlite://test.db".to_string(),
        error: "not found".to_string(),
    };
    assert_eq!(
        err.to_string(),
        "DB_CONNECTION_FAILED. url: sqlite://test.db (not found)"
    );
}

#[test]
fn display_with_identifier_no_error() {
    let err = AuthUserError::InvalidCredentials {
        username: "alice".to_string(),
    };
    assert_eq!(err.to_string(), "INVALID_CREDENTIALS. username: alice");
}

#[test]
fn display_without_identifier() {
    let err = AuthTokenError::Expired;
    assert_eq!(err.to_string(), "TOKEN_EXPIRED");
}

#[test]
fn display_error_only() {
    let err = AuthTokenError::Invalid {
        error: "bad signature".to_string(),
    };
    assert_eq!(err.to_string(), "TOKEN_INVALID (bad signature)");
}

#[test]
fn db_error_constructors() {
    let e = DbError::connection("sqlite://x.db", "refused");
    assert_eq!(e.error_id(), "DB_CONNECTION_FAILED");
    assert_eq!(e.status_code(), StatusCode::INTERNAL_SERVER_ERROR.as_u16());

    let e = DbError::migration("checksum mismatch");
    assert_eq!(e.error_id(), "DB_MIGRATION_FAILED");

    let e = DbError::user_create("alice", "unique violation");
    assert_eq!(e.error_id(), "DB_USER_CREATE_FAILED");

    let e = DbError::user_find_by_username("bob", "timeout");
    assert_eq!(e.error_id(), "DB_USER_FIND_BY_USERNAME_FAILED");

    let e = DbError::user_find_by_id("user-1", "timeout");
    assert_eq!(e.error_id(), "DB_USER_FIND_BY_ID_FAILED");

    let e = DbError::store_refresh_token("alice", "disk full");
    assert_eq!(e.error_id(), "DB_STORE_REFRESH_TOKEN_FAILED");

    let e = DbError::delete_refresh_tokens_for_user("alice", "locked");
    assert_eq!(e.error_id(), "DB_DELETE_REFRESH_TOKENS_FOR_USER_FAILED");

    let e = DbError::consume_refresh_token("row not found");
    assert_eq!(e.error_id(), "DB_CONSUME_REFRESH_TOKEN_FAILED");

    let e = DbError::unknown("some_op", "unexpected");
    assert_eq!(e.error_id(), "DB_UNKNOWN");
}

#[test]
fn servir_error_variants() {
    let e = ServirError::bad_request("invalid json");
    assert_eq!(e.error_id(), "BAD_REQUEST");
    assert_eq!(e.status_code(), StatusCode::BAD_REQUEST.as_u16());

    let e = ServirError::NotFound;
    assert_eq!(e.error_id(), "NOT_FOUND");
    assert_eq!(e.status_code(), StatusCode::NOT_FOUND.as_u16());

    let e = ServirError::from(std::io::Error::other("boom"));
    assert_eq!(e.error_id(), "IO_ERROR");
    assert_eq!(e.status_code(), StatusCode::INTERNAL_SERVER_ERROR.as_u16());
}

#[test]
fn from_impls() {
    let _: ServirError = DbError::Connection {
        url: "x".to_string(),
        error: "e".to_string(),
    }
    .into();

    let _: ServirError = AuthUserError::EmptyUsername.into();
    let _: ServirError = AuthTokenError::Expired.into();
}

fn context_parts(ctx: &ErrorContext) -> (Option<String>, Option<(String, String)>) {
    (
        ctx.error.clone(),
        ctx.identifier
            .as_ref()
            .map(|id| (id.kind().to_string(), id.value().to_string())),
    )
}

#[test]
fn every_error_kind_has_its_status() {
    assert_eq!(AuthUserError::empty_username().status_code(), 400);
    assert_eq!(AuthUserError::weak_password().status_code(), 400);
    assert_eq!(AuthUserError::already_exists("a", "dup").status_code(), STATUS_CONFLICT);
    assert_eq!(AuthUserError::invalid_credentials("a").status_code(), STATUS_UNAUTHORIZED);
    assert_eq!(AuthUserError::password_hash_failed("x").status_code(), 500);
    assert_eq!(AuthTokenError::expired().status_code(), 401);
    assert_eq!(AuthTokenError::invalid("x").status_code(), 401);
    assert_eq!(AuthTokenError::missing_header().status_code(), 401);
    assert_eq!(AuthTokenError::wrong_kind().status_code(), 401);
    assert_eq!(AuthTokenError::invalid_refresh_token().status_code(), 401);
    assert_eq!(AuthTokenError::user_not_found("u").status_code(), 401);
    assert_eq!(AuthTokenError::missing_layer().status_code(), 500);
    assert_eq!(AuthTokenError::encode_failed("x").status_code(), 500);
    assert_eq!(DbError::unknown("op", "x").status_code(), 500);
}

#[test]
fn every_token_error_has_its_id() {
    assert_eq!(AuthTokenError::missing_header().error_id(), "MISSING_AUTHORIZATION_HEADER");
    assert_eq!(AuthTokenError::wrong_kind().error_id(), "WRONG_TOKEN_KIND");
    assert_eq!(AuthTokenError::invalid_refresh_token().error_id(), "INVALID_REFRESH_TOKEN");
    assert_eq!(AuthTokenError::user_not_found("u").error_id(), "USER_NOT_FOUND");
    assert_eq!(AuthTokenError::missing_layer().error_id(), "AUTH_LAYER_MISSING");
    assert_eq!(AuthTokenError::encode_failed("x").error_id(), "TOKEN_ENCODE_FAILED");
    assert_eq!(AuthUserError::empty_username().error_id(), "EMPTY_USERNAME");
    assert_eq!(AuthUserError::weak_password().error_id(), "WEAK_PASSWORD");
    assert_eq!(AuthUserError::already_exists("a", "b").error_id(), "ALREADY_EXISTS");
    assert_eq!(AuthUserError::password_hash_failed("x").error_id(), "PASSWORD_HASH_FAILED");
}

#[test]
fn contexts_carry_identifier_and_description() {
    let e = AuthUserError::already_exists("alice", "UNIQUE constraint failed");
    assert_eq!(
        context_parts(&e.context()),
        (
            Some("UNIQUE constraint failed".to_string()),
            Some(("username".to_string(), "alice".to_string()))
        )
    );

    let e = AuthUserError::invalid_credentials("nobody");
    assert_eq!(
        context_parts(&e.context()),
        (None, Some(("username".to_string(), "nobody".to_string())))
    );

    let e = AuthTokenError::user_not_found("user-9");
    assert_eq!(
        context_parts(&e.context()),
        (None, Some(("user_id".to_string(), "user-9".to_string())))
    );

    let e = DbError::consume_refresh_token("forced");
    assert_eq!(context_parts(&e.context()), (Some("forced".to_string()), None));

    let e = DbError::unknown("load_signing_secret", "locked");
    assert_eq!(
        context_parts(&e.context()),
        (
            Some("locked".to_string()),
            Some(("operation".to_string(), "load_signing_secret".to_string()))
        )
    );

    let e = ServirError::NotFound;
    assert_eq!(context_parts(&e.context()), (None, None));

    let e = ServirError::from(std::io::Error::other("boom"));
    assert_eq!(context_parts(&e.context()), (Some("boom".to_string()), None));
}

#[test]
fn servir_error_display() {
    assert_eq!(
        DbError::user_find_by_id("u-1", "timeout").to_string(),
        "DB_USER_FIND_BY_ID_FAILED. user_id: u-1 (timeout)"
    );
    assert_eq!(ServirError::NotFound.to_string(), "NOT_FOUND");
    assert_eq!(
        ServirError::bad_request("invalid json").to_string(),
        "BAD_REQUEST (invalid json)"
    );
    assert_eq!(
        ServirError::from(std::io::Error::other("boom")).to_string(),
        "IO_ERROR (boom)"
    );
}

#[test]
fn context_json_shapes() {
    assert_eq!(ErrorContext::empty().to_json(), r#"{"error":null}"#);
    assert_eq!(
        ErrorContext::error_only("migration checksum mismatch").to_json(),
        r#"{"error":"migration checksum mismatch"}"#
    );
    assert_eq!(
        ErrorContext::new(Some("unique constraint violated"), "username", "alice").to_json(),
        r#"{"error":"unique constraint violated","username":"alice"}"#
    );
    assert_eq!(
        ErrorContext::new(None, "username", "alice").to_json(),
        r#"{"error":null,"username":"alice"}"#
    );
}

#[test]
fn context_json_escapes_as_serde_json_does() {
    assert_eq!(
        ErrorContext::error_only("a\u{1}\u{8}\t\n\u{c}\r\"\\/\u{7f}é\u{1f}").to_json(),
        "{\"error\":\"a\\u0001\\b\\t\\n\\f\\r\\\"\\\\/\u{7f}é\\u001f\"}"
    );
}
