use servir::server::{default_log_filter, resolve_auth_database_url, resolve_service_name};

#[test]
fn service_name_defaults_to_servir() {
    assert_eq!(resolve_service_name(None), "servir");
    assert_eq!(resolve_service_name(Some("my-app".to_string())), "my-app");
}

#[test]
fn auth_database_url_precedence() {
    assert_eq!(
        resolve_auth_database_url(Some("sqlite::memory:".to_string()), Some("sqlite://env.db".to_string())),
        "sqlite::memory:"
    );
    assert_eq!(
        resolve_auth_database_url(None, Some("sqlite://env.db".to_string())),
        "sqlite://env.db"
    );
    assert_eq!(resolve_auth_database_url(None, None), "sqlite://auth.db");
}

#[test]
fn log_filter_names_service() {
    assert_eq!(
        default_log_filter("echo_server"),
        "echo_server=debug,servir=debug,tower_http=debug"
    );
}
