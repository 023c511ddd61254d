//! The decisions the auth routes and the `AuthUser` extractor make between
//! their database calls: registration checks, login, token issuance, token
//! kind checks, refresh rotation and bearer-header authentication.

use vstd::prelude::*;

use crate::auth::claims::{
    access_token_issued, issue_access_token, issue_refresh_token, issued_or_none, issued_token,
    refresh_token_issued, secret_key, verification_outcome, verify_token, AuthConfig,
    AuthConfigView, Claims, ClaimsView, TokenKind, LONGEST_ASSURED_TTL_SECS,
};
use crate::auth::jwt::{jwt_hs256_payload, uuid_v4_text};
use crate::auth::password::{
    argon2_accepts, argon2_phc_hash, hash_password, hashes_password, phc_well_formed,
    verify_password,
};
use crate::db::{User, UserView};
use crate::error::{
    AuthTokenError, AuthUserError, ServirError, STATUS_INTERNAL_SERVER_ERROR, STATUS_UNAUTHORIZED,
};

verus! {

// ---------------------------------------------------------------------------
// Registration
// ---------------------------------------------------------------------------

/// Minimum password length, in characters.
pub const MIN_PASSWORD_CHARS: usize = 8;

/// The verdict on registration input: `EMPTY_USERNAME` for an empty
/// username, else `WEAK_PASSWORD` for a password shorter than 8 characters.
pub open spec fn registration_verdict(username: Seq<char>, password: Seq<char>) -> Result<
    (),
    ServirError,
> {
    if username.len() == 0 {
        Err(ServirError::AuthUser(AuthUserError::EmptyUsername))
    } else if password.len() < MIN_PASSWORD_CHARS {
        Err(ServirError::AuthUser(AuthUserError::WeakPassword))
    } else {
        Ok(())
    }
}

/// Checks registration input: the username must be non-empty and the
/// password at least 8 characters long, in that order.
pub fn validate_registration(username: &str, password: &str) -> (res: Result<(), ServirError>)
    ensures
        res == registration_verdict(username@, password@),
        username@.len() > 0 ==> (res is Ok <==> password@.len() >= 8),
{
    if username.is_empty() {
        return Err(AuthUserError::empty_username());
    }
    if password.unicode_len() < MIN_PASSWORD_CHARS {
        return Err(AuthUserError::weak_password());
    }
    Ok(())
}

/// Checks registration input and hashes the password for storage.
pub fn prepare_registration(username: &str, password: &str) -> (res: Result<String, ServirError>)
    ensures
        registration_verdict(username@, password@) is Err ==> res == Err::<String, ServirError>(
            registration_verdict(username@, password@)->Err_0,
        ),
        registration_verdict(username@, password@) is Ok ==> match res {
            Ok(h) => hashes_password(h@, password@),
            Err(e) => e matches ServirError::AuthUser(AuthUserError::PasswordHashFailed { .. })
                && exists|salt: Seq<char>| #[trigger] argon2_phc_hash(password@, salt) is None,
        },
{
    match validate_registration(username, password) {
        Ok(()) => hash_password(password),
        Err(e) => Err(e),
    }
}

/// Registration input is judged on the two lengths alone: an empty username
/// is `EMPTY_USERNAME` whatever the password; with a non-empty username the
/// input is accepted exactly when the password has at least 8 characters,
/// and refused with `WEAK_PASSWORD` exactly when it has fewer.
pub proof fn registration_accepts_exactly_eight_character_passwords(
    username: Seq<char>,
    password: Seq<char>,
)
    ensures
        username.len() == 0 ==> registration_verdict(username, password) == Err::<(), ServirError>(
            ServirError::AuthUser(AuthUserError::EmptyUsername),
        ),
        username.len() > 0 ==> (registration_verdict(username, password) is Ok <==> password.len()
            >= 8),
        username.len() > 0 ==> (registration_verdict(username, password) == Err::<(), ServirError>(
            ServirError::AuthUser(AuthUserError::WeakPassword),
        ) <==> password.len() < 8),
{
}

// ---------------------------------------------------------------------------
// Login
// ---------------------------------------------------------------------------

/// `res` is `INVALID_CREDENTIALS` for `username`.
pub open spec fn invalid_credentials_for<T>(res: Result<T, ServirError>, username: Seq<char>) -> bool {
    res matches Err(ServirError::AuthUser(AuthUserError::InvalidCredentials { username: n }))
        && n@ == username
}

/// What [`authenticate`] answers for a login as `username` with `password`
/// when the lookup of `username` found `found`.
pub open spec fn authentication_outcome(
    username: Seq<char>,
    password: Seq<char>,
    found: Option<UserView>,
    res: Result<User, ServirError>,
) -> bool {
    match found {
        None => invalid_credentials_for(res, username),
        Some(u) => if !phc_well_formed(u.password_hash) {
            res matches Err(ServirError::AuthUser(AuthUserError::PasswordHashFailed { .. }))
        } else if argon2_accepts(password, u.password_hash) {
            res matches Ok(v) && v@ == u
        } else {
            invalid_credentials_for(res, username)
        },
    }
}

/// The view of an optional user.
pub open spec fn user_view_of(found: Option<User>) -> Option<UserView> {
    match found {
        Some(u) => Some(u@),
        None => None,
    }
}

/// Checks login credentials against the user found by username: an unknown
/// user and a wrong password both give `INVALID_CREDENTIALS` for the
/// requested username; a malformed stored hash gives `PASSWORD_HASH_FAILED`.
pub fn authenticate(username: &str, password: &str, found: Option<User>) -> (res: Result<
    User,
    ServirError,
>)
    ensures
        authentication_outcome(username@, password@, user_view_of(found), res),
{
    match found {
        None => Err(AuthUserError::invalid_credentials(username)),
        Some(user) => match verify_password(password, user.password_hash()) {
            Ok(true) => Ok(user),
            Ok(false) => Err(AuthUserError::invalid_credentials(username)),
            Err(e) => Err(e),
        },
    }
}

/// A failed login does not tell an unknown user from a wrong password: for
/// the same username the two answers are the same error, with the same
/// status, identifier and context.
pub proof fn login_failure_hides_user_existence(
    username: Seq<char>,
    password: Seq<char>,
    stored: UserView,
    unknown_user: Result<User, ServirError>,
    wrong_password: Result<User, ServirError>,
)
    requires
        phc_well_formed(stored.password_hash),
        !argon2_accepts(password, stored.password_hash),
        authentication_outcome(username, password, None, unknown_user),
        authentication_outcome(username, password, Some(stored), wrong_password),
    ensures
        unknown_user matches Err(e1) && wrong_password matches Err(e2) && e1.spec_status()
            == e2.spec_status() && e1.spec_error_id() == e2.spec_error_id() && forall|
            ctx: crate::error::ContextView,
        | e1.has_context(ctx) == e2.has_context(ctx),
{
}

/// A login with the password the stored hash was made from succeeds and
/// yields the stored user.
pub proof fn login_with_registered_password_succeeds(
    username: Seq<char>,
    password: Seq<char>,
    stored: UserView,
    res: Result<User, ServirError>,
)
    requires
        hashes_password(stored.password_hash, password),
        authentication_outcome(username, password, Some(stored), res),
    ensures
        res matches Ok(u) && u@ == stored,
{
}

// ---------------------------------------------------------------------------
// Token issuance
// ---------------------------------------------------------------------------

/// An access token and a refresh token issued together, with the refresh
/// token's `jti` (to be persisted).
#[derive(Debug)]
pub struct TokenPair {
    pub access_token: String,
    pub refresh_token: String,
    pub jti: String,
}

/// The token type reported with issued tokens.
pub const TOKEN_TYPE: &'static str = "Bearer";

/// Some issue time and token id for which issuing the access or the
/// refresh token for `u` under `config` gives no token.
pub open spec fn pair_issue_fails(u: UserView, config: AuthConfigView) -> bool {
    exists|now: u64, jti: Seq<char>|
        uuid_v4_text(jti) && (#[trigger] issued_token(
            u.id,
            u.username,
            TokenKind::Access,
            config.access_token_ttl_secs,
            now,
            jti,
            secret_key(config.secret),
        ) is None || issued_token(
            u.id,
            u.username,
            TokenKind::Refresh,
            config.refresh_token_ttl_secs,
            now,
            jti,
            secret_key(config.secret),
        ) is None)
}

/// Issues an access token and a refresh token for `user`. It fails only
/// where issuing one of them at the time read gives no token, and never
/// when both lifetimes are at most [`LONGEST_ASSURED_TTL_SECS`].
pub fn issue_token_pair(user: &User, config: &AuthConfig) -> (res: Result<TokenPair, ServirError>)
    ensures
        res matches Ok(p) ==> access_token_issued(
            p.access_token@,
            user@.id,
            user@.username,
            config@,
        ) && refresh_token_issued(p.refresh_token@, p.jti@, user@.id, user@.username, config@),
        res matches Err(e) ==> e matches ServirError::AuthToken(
            AuthTokenError::EncodeFailed { .. },
        ) && pair_issue_fails(user@, config@),
        config@.access_token_ttl_secs <= LONGEST_ASSURED_TTL_SECS
            && config@.refresh_token_ttl_secs <= LONGEST_ASSURED_TTL_SECS ==> res is Ok,
{
    let ghost u = user@;
    let ghost cfg = config@;
    let ghost key = secret_key(config@.secret);
    let access = issue_access_token(user.id(), user.username(), config);
    let access_token = match access {
        Ok(t) => t,
        Err(e) => {
            proof {
                let (now, jti) = choose|now: u64, jti: Seq<char>|
                    uuid_v4_text(jti) && #[trigger] issued_token(
                        u.id,
                        u.username,
                        TokenKind::Access,
                        cfg.access_token_ttl_secs,
                        now,
                        jti,
                        key,
                    ) == issued_or_none(access);
                assert(issued_token(u.id, u.username, TokenKind::Access, cfg.access_token_ttl_secs, now, jti, key) is None);
            }
            return Err(e);
        },
    };
    match issue_refresh_token(user.id(), user.username(), config) {
        Ok((refresh_token, jti)) => Ok(TokenPair { access_token, refresh_token, jti }),
        Err(e) => {
            proof {
                let (now, jti) = choose|now: u64, jti: Seq<char>|
                    uuid_v4_text(jti) && #[trigger] issued_token(
                        u.id,
                        u.username,
                        TokenKind::Refresh,
                        cfg.refresh_token_ttl_secs,
                        now,
                        jti,
                        key,
                    ) is None;
                assert(issued_token(u.id, u.username, TokenKind::Access, cfg.access_token_ttl_secs, now, jti, key) is None
                    || issued_token(u.id, u.username, TokenKind::Refresh, cfg.refresh_token_ttl_secs, now, jti, key) is None);
            }
            Err(e)
        },
    }
}

// ---------------------------------------------------------------------------
// Token kind, refresh rotation
// ---------------------------------------------------------------------------

/// Requires the token to be of the `expected` kind; `WRONG_TOKEN_KIND` otherwise.
pub fn require_token_kind(claims: &Claims, expected: TokenKind) -> (res: Result<(), ServirError>)
    ensures
        res == if claims@.kind == expected {
            Ok::<(), ServirError>(())
        } else {
            Err(ServirError::AuthToken(AuthTokenError::WrongKind))
        },
{
    if claims.kind() == expected {
        Ok(())
    } else {
        Err(AuthTokenError::wrong_kind())
    }
}

/// Requires the refresh token's `jti` to have been consumed (it existed and
/// had not expired); `INVALID_REFRESH_TOKEN` otherwise.
pub fn require_consumed(consumed: bool) -> (res: Result<(), ServirError>)
    ensures
        res == if consumed {
            Ok::<(), ServirError>(())
        } else {
            Err(ServirError::AuthToken(AuthTokenError::InvalidRefreshToken))
        },
{
    if consumed {
        Ok(())
    } else {
        Err(AuthTokenError::invalid_refresh_token())
    }
}

/// Requires the user named by a token's `sub` claim to exist;
/// `USER_NOT_FOUND` for `user_id` otherwise.
pub fn require_user(found: Option<User>, user_id: &str) -> (res: Result<User, ServirError>)
    ensures
        match found {
            Some(u) => res matches Ok(v) && v@ == u@,
            None => res matches Err(ServirError::AuthToken(AuthTokenError::UserNotFound { user_id: n }))
                && n@ == user_id@,
        },
{
    match found {
        Some(u) => Ok(u),
        None => Err(AuthTokenError::user_not_found(user_id)),
    }
}

/// The user whose refresh tokens a logout revokes: the subject of the
/// presented token once it verified as a refresh token; otherwise the
/// verification failure, or `WRONG_TOKEN_KIND` for another kind of token.
pub fn logout_target(verified: Result<Claims, ServirError>) -> (res: Result<String, ServirError>)
    ensures
        match verified {
            Err(e) => res == Err::<String, ServirError>(e),
            Ok(c) => if c@.kind == TokenKind::Refresh {
                res matches Ok(s) && s@ == c@.sub
            } else {
                res == Err::<String, ServirError>(ServirError::AuthToken(AuthTokenError::WrongKind))
            },
        },
{
    match verified {
        Ok(claims) => match require_token_kind(&claims, TokenKind::Refresh) {
            Ok(()) => Ok(claims.sub().to_owned()),
            Err(e) => Err(e),
        },
        Err(e) => Err(e),
    }
}

// ---------------------------------------------------------------------------
// Bearer authentication
// ---------------------------------------------------------------------------

/// The `Authorization` scheme prefix: `Bearer ` (with one space).
pub open spec fn bearer_prefix() -> Seq<char> {
    "Bearer "@
}

/// The token an `Authorization` header value carries: the text after the
/// `Bearer ` prefix, if it has that prefix.
pub open spec fn bearer_token_of(header: Seq<char>) -> Option<Seq<char>> {
    if bearer_prefix().is_prefix_of(header) {
        Some(header.skip(bearer_prefix().len() as int))
    } else {
        None
    }
}

/// Every header made of `Bearer ` and a text carries that text as its
/// token, whatever its length; and a header carries a token only when it is
/// `Bearer ` followed by that token.
pub proof fn bearer_header_carries_its_token(t: Seq<char>, header: Seq<char>)
    ensures
        bearer_token_of("Bearer "@ + t) == Some(t),
        bearer_token_of(header) matches Some(u) ==> header == "Bearer "@ + u,
{
    reveal_strlit("Bearer ");
    let h = "Bearer "@ + t;
    assert(h.subrange(0, 7) =~= "Bearer "@);
    assert(h.skip(7) =~= t);
    if bearer_token_of(header) is Some {
        assert(header =~= "Bearer "@ + header.skip(7));
    }
}

/// Strips the `Bearer ` prefix from an `Authorization` header value.
pub fn strip_bearer(header: &str) -> (res: Option<&str>)
    ensures
        match bearer_token_of(header@) {
            Some(t) => res matches Some(r) && r@ == t,
            None => res is None,
        },
{
    let prefix = "Bearer ";
    proof {
        reveal_strlit("Bearer ");
    }
    let n = header.unicode_len();
    if n < 7 {
        return None;
    }
    let mut i: usize = 0;
    while i < 7
        invariant
            i <= 7,
            n == header@.len(),
            n >= 7,
            prefix@ == bearer_prefix(),
            prefix@.len() == 7,
            forall|j: int| 0 <= j < i ==> header@[j] == prefix@[j],
        decreases 7 - i,
    {
        if header.get_char(i) != prefix.get_char(i) {
            assert(!bearer_prefix().is_prefix_of(header@)) by {
                assert(header@.subrange(0, 7)[i as int] != prefix@[i as int]);
            }
            return None;
        }
        i = i + 1;
    }
    assert(bearer_prefix().is_prefix_of(header@)) by {
        assert(header@.subrange(0, 7) =~= prefix@);
    }
    Some(header.substring_char(7, n))
}

/// What [`authenticate_bearer`] answers for the installed config (if any)
/// and the `Authorization` header text (if any): `AUTH_LAYER_MISSING`
/// without a config, `MISSING_AUTHORIZATION_HEADER` without a `Bearer`
/// token, else the verification outcome of the token (`TOKEN_INVALID` when
/// its signature does not verify).
pub open spec fn bearer_outcome(
    config: Option<AuthConfigView>,
    authorization: Option<Seq<char>>,
    res: Result<String, ServirError>,
) -> bool {
    match config {
        None => res == Err::<String, ServirError>(ServirError::AuthToken(AuthTokenError::MissingLayer)),
        Some(c) => match authorization {
            None => res == Err::<String, ServirError>(
                ServirError::AuthToken(AuthTokenError::MissingHeader),
            ),
            Some(h) => match bearer_token_of(h) {
                None => res == Err::<String, ServirError>(
                    ServirError::AuthToken(AuthTokenError::MissingHeader),
                ),
                Some(t) => {
                    &&& verification_outcome(t, secret_key(c.secret), res)
                    &&& jwt_hs256_payload(t, secret_key(c.secret)) is None ==> res matches Err(
                        ServirError::AuthToken(AuthTokenError::Invalid { .. }),
                    )
                },
            },
        },
    }
}

/// The view of an optional config.
pub open spec fn config_view_of(config: Option<&AuthConfig>) -> Option<AuthConfigView> {
    match config {
        Some(c) => Some(c@),
        None => None,
    }
}

/// The view of an optional header text.
pub open spec fn text_view_of(text: Option<&str>) -> Option<Seq<char>> {
    match text {
        Some(t) => Some(t@),
        None => None,
    }
}

/// Authenticates a request from the auth config the layer installed (if
/// any) and the `Authorization` header (if any, and valid text):
/// `AUTH_LAYER_MISSING` without a config, `MISSING_AUTHORIZATION_HEADER`
/// without a `Bearer` token, else the verified claims JSON of the token.
pub fn authenticate_bearer(config: Option<&AuthConfig>, authorization: Option<&str>) -> (res:
    Result<String, ServirError>)
    ensures
        bearer_outcome(config_view_of(config), text_view_of(authorization), res),
{
    let config = match config {
        Some(c) => c,
        None => return Err(AuthTokenError::missing_layer()),
    };
    let header = match authorization {
        Some(h) => h,
        None => return Err(AuthTokenError::missing_header()),
    };
    match strip_bearer(header) {
        Some(token) => verify_token(token, config),
        None => Err(AuthTokenError::missing_header()),
    }
}

/// What [`AuthUser::from_claims`] answers for verified claims `c`: the user
/// holding them when they belong to an access token, `WRONG_TOKEN_KIND`
/// otherwise.
pub open spec fn access_check(c: ClaimsView, res: Result<AuthUser, ServirError>) -> bool {
    if c.kind == TokenKind::Access {
        res matches Ok(u) && u.0@ == c
    } else {
        res == Err::<AuthUser, ServirError>(ServirError::AuthToken(AuthTokenError::WrongKind))
    }
}

/// The authenticated user of a request: the claims of a verified access token.
pub struct AuthUser(pub Claims);

impl AuthUser {
    /// Accepts verified claims as the request's user if they belong to an
    /// access token; `WRONG_TOKEN_KIND` otherwise.
    pub fn from_claims(claims: Claims) -> (res: Result<AuthUser, ServirError>)
        ensures
            access_check(claims@, res),
    {
        match require_token_kind(&claims, TokenKind::Access) {
            Ok(()) => Ok(AuthUser(claims)),
            Err(e) => Err(e),
        }
    }
}

/// With the auth layer installed, a request whose `Authorization` header is
/// `Bearer ` followed by a token gets exactly the verification outcome of
/// that token, whatever its length.
pub proof fn bearer_request_verifies_its_token(
    config: AuthConfigView,
    t: Seq<char>,
    res: Result<String, ServirError>,
)
    requires
        bearer_outcome(Some(config), Some("Bearer "@ + t), res),
    ensures
        verification_outcome(t, secret_key(config.secret), res),
{
    bearer_header_carries_its_token(t, "Bearer "@ + t);
}

/// The `AuthUser` extractor answers `500` only when the auth layer is
/// missing; every other rejection (no or malformed header, invalid or
/// expired token, a token of the wrong kind) is `401 Unauthorized`.
pub proof fn extractor_rejections_are_unauthorized(
    config: Option<AuthConfigView>,
    authorization: Option<Seq<char>>,
    bearer: Result<String, ServirError>,
    claims: ClaimsView,
    accepted: Result<AuthUser, ServirError>,
)
    requires
        bearer_outcome(config, authorization, bearer),
        access_check(claims, accepted),
    ensures
        bearer matches Err(e) ==> (e.spec_status() == STATUS_INTERNAL_SERVER_ERROR <==> config is None),
        bearer matches Err(e) ==> (config is Some ==> e.spec_status() == STATUS_UNAUTHORIZED),
        accepted matches Err(e) ==> e.spec_status() == STATUS_UNAUTHORIZED,
{
}

} // verus!
