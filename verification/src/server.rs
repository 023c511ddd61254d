//! What the server builder decides on its own: the service name, the auth
//! database URL and the default log filter.

use vstd::prelude::*;

verus! {

/// Service name used when none is configured.
pub const DEFAULT_SERVICE_NAME: &'static str = "servir";

/// Auth database URL used when neither the builder nor the environment sets one.
pub const DEFAULT_AUTH_DATABASE_URL: &'static str = "sqlite://auth.db";

/// Path under which all application and auth routes are nested.
pub const API_PREFIX: &'static str = "/api/v1";

/// The service name: the configured one, else `servir`.
pub fn resolve_service_name(name: Option<String>) -> (s: String)
    ensures
        match name {
            Some(n) => s@ == n@,
            None => s@ == DEFAULT_SERVICE_NAME@,
        },
{
    match name {
        Some(n) => n,
        None => DEFAULT_SERVICE_NAME.to_owned(),
    }
}

/// The auth database URL, by precedence: the one set on the builder, then
/// the `AUTH_DATABASE_URL` environment variable, then `sqlite://auth.db`.
pub fn resolve_auth_database_url(explicit: Option<String>, from_env: Option<String>) -> (s: String)
    ensures
        match (explicit, from_env) {
            (Some(u), _) => s@ == u@,
            (None, Some(u)) => s@ == u@,
            (None, None) => s@ == DEFAULT_AUTH_DATABASE_URL@,
        },
{
    match explicit {
        Some(u) => u,
        None => match from_env {
            Some(u) => u,
            None => DEFAULT_AUTH_DATABASE_URL.to_owned(),
        },
    }
}

/// The log filter used when `RUST_LOG` is unset:
/// `{service_name}=debug,servir=debug,tower_http=debug`.
pub fn default_log_filter(service_name: &str) -> (s: String)
    ensures
        s@ == service_name@ + "=debug,servir=debug,tower_http=debug"@,
{
    let mut s = service_name.to_owned();
    s.append("=debug,servir=debug,tower_http=debug");
    s
}

} // verus!
