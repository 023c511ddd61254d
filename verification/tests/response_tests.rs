use axum::http::StatusCode;
use servir::{ApiResponse, AuthTokenError, AuthUserError, DbError, ServirError};

#[test]
fn ok_wraps_data() {
    let r: ApiResponse<i32> = ApiResponse::ok(42);
    assert!(matches!(r, ApiResponse::Success { data: 42 }));
}

#[test]
fn error_from_servir_error() {
    let r: ApiResponse<()> = ApiResponse::error(ServirError::AuthToken(AuthTokenError::Expired));
    let ApiResponse::Error { error } = r else {
        panic!("expected Error variant")
    };
    assert_eq!(error.error_id(), "TOKEN_EXPIRED");
    assert_eq!(error.status_code(), StatusCode::UNAUTHORIZED.as_u16());
}

#[test]
fn from_servir_error() {
    let r: ApiResponse<()> = ServirError::AuthUser(AuthUserError::EmptyUsername).into();
    assert!(matches!(r, ApiResponse::Error { .. }));
}

#[test]
fn from_result_ok() {
    let r: ApiResponse<i32> = Ok::<i32, ServirError>(7).into();
    assert!(matches!(r, ApiResponse::Success { data: 7 }));
}

#[test]
fn from_result_err() {
    let r: ApiResponse<i32> = Err::<i32, ServirError>(DbError::migration("")).into();
    assert!(matches!(r, ApiResponse::Error { .. }));
}

#[test]
fn map_transforms_success_and_keeps_errors() {
    let r: ApiResponse<i32> = ApiResponse::ok(20);
    let mapped = r.map(|x| x + 1);
    assert!(matches!(mapped, ApiResponse::Success { data: 21 }));

    let r: ApiResponse<i32> = ApiResponse::error(ServirError::NotFound);
    let mapped = r.map(|x| x + 1);
    let ApiResponse::Error { error } = mapped else {
        panic!("expected Error variant")
    };
    assert_eq!(error.error_id(), "NOT_FOUND");
}

#[test]
fn response_status_is_200_or_the_errors() {
    let r: ApiResponse<&str> = ApiResponse::ok("pong");
    assert_eq!(r.status_code(), 200);
    let r: ApiResponse<()> = ApiResponse::error(DbError::consume_refresh_token("forced"));
    assert_eq!(r.status_code(), 500);
    let r: ApiResponse<()> = ApiResponse::error(AuthUserError::already_exists("a", "dup"));
    assert_eq!(r.status_code(), 409);
}

#[test]
fn error_body_context() {
    let r: ApiResponse<()> = ApiResponse::error(DbError::consume_refresh_token("forced"));
    let ApiResponse::Error { error } = r else {
        panic!("expected Error variant")
    };
    let ctx = error.context();
    assert_eq!(ctx.error.as_deref(), Some("forced"));
    assert!(ctx.identifier.is_none());
}

#[test]
fn error_body_json_for_not_found() {
    let body = servir::ErrorBody { error: ServirError::NotFound };
    assert_eq!(body.to_json(), r#"{"error_id":"NOT_FOUND","context":{"error":null}}"#);
}

#[test]
fn error_body_json_with_identifier() {
    let body = servir::ErrorBody { error: AuthUserError::invalid_credentials("alice") };
    assert_eq!(
        body.to_json(),
        r#"{"error_id":"INVALID_CREDENTIALS","context":{"error":null,"username":"alice"}}"#
    );
}

#[test]
fn error_body_json_with_description_and_identifier() {
    let body = servir::ErrorBody { error: DbError::connection("sqlite://bad.db", "connection refused") };
    assert_eq!(
        body.to_json(),
        r#"{"error_id":"DB_CONNECTION_FAILED","context":{"error":"connection refused","url":"sqlite://bad.db"}}"#
    );
}

#[test]
fn error_body_json_escapes_text() {
    let body = servir::ErrorBody { error: ServirError::bad_request("expected \"name\"\n") };
    assert_eq!(
        body.to_json(),
        r#"{"error_id":"BAD_REQUEST","context":{"error":"expected \"name\"\n"}}"#
    );
}

#[test]
fn internal_error_body_shape() {
    let r: ApiResponse<()> = ApiResponse::error(DbError::consume_refresh_token("forced"));
    let ApiResponse::Error { error } = r else {
        panic!("expected Error variant")
    };
    assert_eq!(error.status_code(), 500);
    assert_eq!(
        error.to_json(),
        r#"{"error_id":"DB_CONSUME_REFRESH_TOKEN_FAILED","context":{"error":"forced"}}"#
    );
}
