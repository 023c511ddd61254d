use servir::auth::claims::{issue_access_token, issue_refresh_token, verify_token, AuthConfig, Claims, TokenKind};
use servir::auth::http::{
    logout_target,
    authenticate, authenticate_bearer, issue_token_pair, prepare_registration, require_consumed,
    require_token_kind, require_user, strip_bearer, validate_registration,
};
use servir::auth::password::{hash_password, verify_password};
use servir::db::{generate_signing_secret, new_user_id, signing_secret_from, refresh_token_expiry, user_create_failure, User};
use servir::profile::UserProfile;
use servir::auth::flow::{flow_step, login_start, register_start, FlowAction, FlowEvent, FlowState};
use servir::{AuthUser, DbError};

fn config() -> AuthConfig {
    AuthConfig::new("test-secret-key-must-be-at-least-32-chars!!")
}

fn claims_of(kind: TokenKind) -> Claims {
    Claims::new(
        "user-123".to_string(),
        "someone".to_string(),
        4_000_000_000,
        3_999_000_000,
        "jti-access".to_string(),
        kind,
    )
}

#[test]
fn register_empty_username_is_rejected_first() {
    let err = validate_registration("", "short").unwrap_err();
    assert_eq!(err.error_id(), "EMPTY_USERNAME");
    assert_eq!(err.status_code(), 400);
}

#[test]
fn register_weak_password_is_rejected() {
    let err = validate_registration("bob", "short").unwrap_err();
    assert_eq!(err.error_id(), "WEAK_PASSWORD");
    assert!(validate_registration("bob", "1234567").is_err());
    assert!(validate_registration("bob", "12345678").is_ok());
    // Length counts characters: four two-byte characters are too short.
    let err = validate_registration("bob", "éééé").unwrap_err();
    assert_eq!(err.error_id(), "WEAK_PASSWORD");
    assert_eq!(err.status_code(), 400);
    assert!(validate_registration("bob", "éééééééé").is_ok());
}

#[test]
fn registration_hash_verifies() {
    let hash = prepare_registration("alice", "hunter22").unwrap();
    assert!(verify_password("hunter22", &hash).unwrap());
    assert!(prepare_registration("alice", "hunter2").is_err());
}

#[test]
fn login_outcomes() {
    let hash = hash_password("hunter22").unwrap();
    let stored = || Some(User::new("id-1".to_string(), "alice".to_string(), hash.clone()));

    let user = authenticate("alice", "hunter22", stored()).unwrap();
    assert_eq!(user.id(), "id-1");
    assert_eq!(user.username(), "alice");

    let wrong = authenticate("alice", "wrongpass", stored()).unwrap_err();
    let unknown = authenticate("alice", "wrongpass", None).unwrap_err();
    assert_eq!(wrong.error_id(), "INVALID_CREDENTIALS");
    assert_eq!(wrong.status_code(), 401);
    assert_eq!(wrong.to_string(), unknown.to_string());
    assert_eq!(unknown.to_string(), "INVALID_CREDENTIALS. username: alice");

    let corrupted = Some(User::new("id-2".to_string(), "eve".to_string(), "nope".to_string()));
    let err = authenticate("eve", "whatever", corrupted).unwrap_err();
    assert_eq!(err.error_id(), "PASSWORD_HASH_FAILED");
}

#[test]
fn token_pair_for_user() {
    let config = config();
    let user = User::new("user-1".to_string(), "alice".to_string(), "h".to_string());
    let pair = issue_token_pair(&user, &config).unwrap();
    let access: serde_json::Value =
        serde_json::from_str(&verify_token(&pair.access_token, &config).unwrap()).unwrap();
    let refresh: serde_json::Value =
        serde_json::from_str(&verify_token(&pair.refresh_token, &config).unwrap()).unwrap();
    assert_eq!(access["kind"], "access");
    assert_eq!(refresh["kind"], "refresh");
    assert_eq!(refresh["jti"], pair.jti.as_str());
    assert_eq!(access["sub"], "user-1");
    assert_ne!(pair.access_token, pair.refresh_token);
}

#[test]
fn token_kind_checks() {
    assert!(require_token_kind(&claims_of(TokenKind::Refresh), TokenKind::Refresh).is_ok());
    let err = require_token_kind(&claims_of(TokenKind::Access), TokenKind::Refresh).unwrap_err();
    assert_eq!(err.error_id(), "WRONG_TOKEN_KIND");
    assert_eq!(err.status_code(), 401);

    let user = AuthUser::from_claims(claims_of(TokenKind::Access)).unwrap();
    assert_eq!(user.0.username(), "someone");
    let err = AuthUser::from_claims(claims_of(TokenKind::Refresh)).err().unwrap();
    assert_eq!(err.error_id(), "WRONG_TOKEN_KIND");
}

#[test]
fn refresh_rotation_checks() {
    assert!(require_consumed(true).is_ok());
    let err = require_consumed(false).unwrap_err();
    assert_eq!(err.to_string(), "INVALID_REFRESH_TOKEN");

    let u = User::new("u-1".to_string(), "carol".to_string(), "h".to_string());
    assert_eq!(require_user(Some(u), "u-1").unwrap().username(), "carol");
    let err = require_user(None, "u-404").unwrap_err();
    assert_eq!(err.to_string(), "USER_NOT_FOUND. user_id: u-404");
}

#[test]
fn bearer_prefix_stripping() {
    assert_eq!(strip_bearer("Bearer abc.def"), Some("abc.def"));
    assert_eq!(strip_bearer("Bearer "), Some(""));
    assert_eq!(strip_bearer("bearer abc"), None);
    assert_eq!(strip_bearer("Basic abc"), None);
    assert_eq!(strip_bearer("Bearer"), None);
}

#[test]
fn bearer_authentication() {
    let config = config();
    let err = authenticate_bearer(None, Some("Bearer x")).unwrap_err();
    assert_eq!(err.error_id(), "AUTH_LAYER_MISSING");
    assert_eq!(err.status_code(), 500);

    let err = authenticate_bearer(Some(&config), None).unwrap_err();
    assert_eq!(err.error_id(), "MISSING_AUTHORIZATION_HEADER");
    assert_eq!(err.status_code(), 401);
    let err = authenticate_bearer(Some(&config), Some("Token abc")).unwrap_err();
    assert_eq!(err.error_id(), "MISSING_AUTHORIZATION_HEADER");
    assert_eq!(err.status_code(), 401);

    let err = authenticate_bearer(Some(&config), Some("Bearer not.a.valid.jwt")).unwrap_err();
    assert_eq!(err.error_id(), "TOKEN_INVALID");
    assert_eq!(err.status_code(), 401);

    let token = issue_access_token("user-123", "alice", &config).unwrap();
    let header = format!("Bearer {token}");
    let payload = authenticate_bearer(Some(&config), Some(&header)).unwrap();
    let claims: serde_json::Value = serde_json::from_str(&payload).unwrap();
    assert_eq!(claims["username"], "alice");

    let (refresh, _) = issue_refresh_token("user-123", "alice", &config).unwrap();
    let header = format!("Bearer {refresh}");
    assert!(authenticate_bearer(Some(&config), Some(&header)).is_ok());
}

#[test]
fn create_user_failures() {
    let e = user_create_failure("alice", true, "UNIQUE constraint failed: users.username");
    assert_eq!(e.error_id(), "ALREADY_EXISTS");
    assert_eq!(e.status_code(), 409);
    let e = user_create_failure("alice", false, "disk I/O error");
    assert_eq!(e.error_id(), "DB_USER_CREATE_FAILED");
    assert_eq!(e.status_code(), 500);
}

#[test]
fn ids_and_secrets() {
    let a = new_user_id();
    let b = new_user_id();
    assert_eq!(a.len(), 36);
    assert_ne!(a, b);

    let s = generate_signing_secret().unwrap();
    assert_eq!(s.len(), 64);
    assert!(s.chars().all(|c| c.is_ascii_hexdigit() && !c.is_ascii_uppercase()));
    assert_ne!(s, generate_signing_secret().unwrap());
}

#[test]
fn refresh_token_expiry_adds_lifetime() {
    assert_eq!(refresh_token_expiry(1_700_000_000, 604_800), 1_700_604_800);
    assert_eq!(refresh_token_expiry(0, 0), 0);
}

#[test]
fn first_access_profile_uses_auth_identity() {
    let p = UserProfile::first_access("user-1", "alice", 1_700_000_000);
    assert_eq!(p.id, "user-1");
    assert_eq!(p.username, "alice");
    assert_eq!(p.created_at, 1_700_000_000);
}

#[test]
fn signing_secret_is_lowercase_hex_of_bytes() {
    let bytes: Vec<u8> = (0u8..32).map(|b| b * 8).collect();
    assert_eq!(
        signing_secret_from(&bytes),
        "0008101820283038404850586068707880889098a0a8b0b8c0c8d0d8e0e8f0f8"
    );
    assert_eq!(signing_secret_from(&[0xff, 0x0a]), "ff0a");
    assert_eq!(signing_secret_from(&[]), "");
}

#[test]
fn user_id_is_version_4_uuid_text() {
    let id = new_user_id();
    let c: Vec<char> = id.chars().collect();
    assert_eq!(c.len(), 36);
    for (i, ch) in c.iter().enumerate() {
        if [8, 13, 18, 23].contains(&i) {
            assert_eq!(*ch, '-');
        } else {
            assert!(ch.is_ascii_digit() || ('a'..='f').contains(ch));
        }
    }
    assert_eq!(c[14], '4');
    assert!(['8', '9', 'a', 'b'].contains(&c[19]));
}

#[test]
fn refresh_token_expiry_wraps_a_huge_lifetime_as_the_cast_does() {
    assert_eq!(refresh_token_expiry(0, u64::MAX), -1);
}

#[test]
fn register_flow_inserts_issues_and_stores() {
    let config = config();
    let (s, a) = register_start("", "hunter22");
    assert!(s.is_none());
    match a {
        FlowAction::Respond(Err(e)) => assert_eq!(e.error_id(), "EMPTY_USERNAME"),
        _ => panic!("expected an answer"),
    }

    let (s, a) = register_start("alice", "hunter22");
    assert!(matches!(s, Some(FlowState::Creating)));
    let FlowAction::CreateUser { username, password_hash } = a else { panic!("expected an insert") };
    assert_eq!(username, "alice");
    assert!(verify_password("hunter22", &password_hash).unwrap());

    let user = User::new("u-1".to_string(), username, password_hash);
    let (s, a) = flow_step(FlowState::Creating, FlowEvent::Created(Ok(user)), &config);
    let Some(FlowState::Storing { pair }) = s else { panic!("expected a stored pair") };
    let FlowAction::StoreRefreshToken { jti, user_id, username, ttl_secs } = a else {
        panic!("expected a store call")
    };
    assert_eq!(jti, pair.jti);
    assert_eq!(user_id, "u-1");
    assert_eq!(username, "alice");
    assert_eq!(ttl_secs, 604_800);
    let access = pair.access_token.clone();

    let (s, a) = flow_step(FlowState::Storing { pair }, FlowEvent::Stored(Ok(())), &config);
    assert!(s.is_none());
    let FlowAction::Respond(Ok(answer)) = a else { panic!("expected tokens") };
    assert_eq!(answer.access_token, access);
}

#[test]
fn login_flow_checks_the_password() {
    let config = config();
    let (s, a) = login_start("alice".to_string(), "hunter22".to_string());
    assert!(matches!(&a, FlowAction::FindUserByUsername { username } if username == "alice"));

    let (next, a2) = flow_step(s, FlowEvent::FoundByName(Ok(None)), &config);
    assert!(next.is_none());
    let FlowAction::Respond(Err(e)) = a2 else { panic!("expected an error") };
    assert_eq!(e.to_string(), "INVALID_CREDENTIALS. username: alice");

    let hash = hash_password("hunter22").unwrap();
    let stored = User::new("u-1".to_string(), "alice".to_string(), hash.clone());
    let (s, _) = login_start("alice".to_string(), "wrong-pass".to_string());
    let (next, a2) = flow_step(s, FlowEvent::FoundByName(Ok(Some(stored))), &config);
    assert!(next.is_none());
    let FlowAction::Respond(Err(e)) = a2 else { panic!("expected an error") };
    assert_eq!(e.error_id(), "INVALID_CREDENTIALS");

    let stored = User::new("u-1".to_string(), "alice".to_string(), hash);
    let (s, _) = login_start("alice".to_string(), "hunter22".to_string());
    let (next, a2) = flow_step(s, FlowEvent::FoundByName(Ok(Some(stored))), &config);
    assert!(matches!(next, Some(FlowState::Storing { .. })));
    assert!(matches!(a2, FlowAction::StoreRefreshToken { .. }));
}

#[test]
fn refresh_flow_order() {
    let config = config();
    let (s, a) = flow_step(FlowState::Verifying, FlowEvent::Verified(Ok(claims_of(TokenKind::Access))), &config);
    assert!(s.is_none());
    let FlowAction::Respond(Err(e)) = a else { panic!("expected an error") };
    assert_eq!(e.error_id(), "WRONG_TOKEN_KIND");

    let claims = claims_of(TokenKind::Refresh);
    let jti = claims.jti().to_string();
    let sub = claims.sub().to_string();
    let (s, a) = flow_step(FlowState::Verifying, FlowEvent::Verified(Ok(claims)), &config);
    assert!(matches!(&a, FlowAction::ConsumeRefreshToken { jti: j } if *j == jti));
    let s = s.unwrap();

    let (next, a) = flow_step(s, FlowEvent::Consumed(Ok(false)), &config);
    assert!(next.is_none());
    let FlowAction::Respond(Err(e)) = a else { panic!("expected an error") };
    assert_eq!(e.error_id(), "INVALID_REFRESH_TOKEN");

    let (s, _) = flow_step(FlowState::Verifying, FlowEvent::Verified(Ok(claims_of(TokenKind::Refresh))), &config);
    let (s, a) = flow_step(s.unwrap(), FlowEvent::Consumed(Ok(true)), &config);
    assert!(matches!(&a, FlowAction::FindUserById { user_id } if *user_id == sub));
    let (next, a) = flow_step(s.unwrap(), FlowEvent::FoundById(Ok(None)), &config);
    assert!(next.is_none());
    let FlowAction::Respond(Err(e)) = a else { panic!("expected an error") };
    assert_eq!(e.to_string(), format!("USER_NOT_FOUND. user_id: {sub}"));

    let (s, _) = flow_step(FlowState::Verifying, FlowEvent::Verified(Ok(claims_of(TokenKind::Refresh))), &config);
    let (next, a) = flow_step(s.unwrap(), FlowEvent::Consumed(Err(DbError::consume_refresh_token("locked"))), &config);
    assert!(next.is_none());
    let FlowAction::Respond(Err(e)) = a else { panic!("expected an error") };
    assert_eq!(e.error_id(), "DB_CONSUME_REFRESH_TOKEN_FAILED");
}

#[test]
fn logout_revokes_the_refresh_tokens_subject() {
    assert_eq!(logout_target(Ok(claims_of(TokenKind::Refresh))).unwrap(), "user-123");
    let e = logout_target(Ok(claims_of(TokenKind::Access))).unwrap_err();
    assert_eq!(e.error_id(), "WRONG_TOKEN_KIND");
    let e = logout_target(Err(servir::AuthTokenError::expired())).unwrap_err();
    assert_eq!(e.error_id(), "TOKEN_EXPIRED");
}

#[test]
fn fresh_tokens_verify_to_their_claims() {
    let config = config();
    let token = issue_access_token("user-123", "alice", &config).unwrap();
    let claims: serde_json::Value = serde_json::from_str(&verify_token(&token, &config).unwrap()).unwrap();
    assert_eq!(claims["sub"], "user-123");
    assert_eq!(claims["username"], "alice");
    assert_eq!(claims["kind"], "access");

    let (token, jti) = issue_refresh_token("user-123", "alice", &config).unwrap();
    let claims: serde_json::Value = serde_json::from_str(&verify_token(&token, &config).unwrap()).unwrap();
    assert_eq!(claims["kind"], "refresh");
    assert_eq!(claims["jti"], jti.as_str());
}
