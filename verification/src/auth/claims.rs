//! Token claims, auth configuration, and issuing and verifying JWTs.
//!
//! A token's claims are framed by this library as compact JSON
//! (`{"sub":..,"username":..,"exp":..,"iat":..,"jti":..,"kind":..}`) and
//! signed with HS256; verification hands back the claims JSON that the
//! signature covers.

use vstd::prelude::*;

use crate::auth::jwt::{
    jwt_decode, jwt_decode_facts, uuid_v4_text, jwt_encode, jwt_hs256_accepted, jwt_hs256_encode, jwt_hs256_payload, new_uuid_v4, now_secs,
    JwtRejection,
};
use crate::error::{AuthTokenError, ServirError};
use crate::json::{decimal, decimal_string, json_quote, json_string_literal};

verus! {

// ---------------------------------------------------------------------------
// Token kind and claims
// ---------------------------------------------------------------------------

/// Distinguishes access tokens from refresh tokens.
#[derive(Debug, Clone, Copy, PartialEq, Eq, Structural)]
pub enum TokenKind {
    Access,
    Refresh,
}

/// What a [`Claims`] value holds.
pub struct ClaimsView {
    pub sub: Seq<char>,
    pub username: Seq<char>,
    pub exp: u64,
    pub iat: u64,
    pub jti: Seq<char>,
    pub kind: TokenKind,
}

/// JWT payload carried by both access and refresh tokens.
#[derive(Debug, Clone)]
pub struct Claims {
    sub: String,
    username: String,
    exp: u64,
    iat: u64,
    jti: String,
    kind: TokenKind,
}

impl View for Claims {
    type V = ClaimsView;

    closed spec fn view(&self) -> ClaimsView {
        ClaimsView {
            sub: self.sub@,
            username: self.username@,
            exp: self.exp,
            iat: self.iat,
            jti: self.jti@,
            kind: self.kind,
        }
    }
}

impl Claims {
    /// Builds claims from their parts.
    pub fn new(
        sub: String,
        username: String,
        exp: u64,
        iat: u64,
        jti: String,
        kind: TokenKind,
    ) -> (c: Claims)
        ensures
            c@ == (ClaimsView { sub: sub@, username: username@, exp, iat, jti: jti@, kind }),
    {
        Claims { sub, username, exp, iat, jti, kind }
    }

    /// The authenticated user's ID (JWT `sub` claim).
    pub fn sub(&self) -> (s: &str)
        ensures
            s@ == self@.sub,
    {
        self.sub.as_str()
    }

    /// The authenticated user's username.
    pub fn username(&self) -> (s: &str)
        ensures
            s@ == self@.username,
    {
        self.username.as_str()
    }

    /// The token's unique identifier (JWT `jti` claim).
    pub fn jti(&self) -> (s: &str)
        ensures
            s@ == self@.jti,
    {
        self.jti.as_str()
    }

    /// The token kind (access or refresh).
    pub fn kind(&self) -> (k: TokenKind)
        ensures
            k == self@.kind,
    {
        self.kind
    }

    /// The compact JSON framing of these claims, as signed into a token.
    pub fn to_json(&self) -> (s: String)
        ensures
            s@ == claims_json(self@),
    {
        let mut s = "{\"sub\":".to_owned();
        s.append(json_quote(self.sub.as_str()).as_str());
        s.append(",\"username\":");
        s.append(json_quote(self.username.as_str()).as_str());
        s.append(",\"exp\":");
        s.append(decimal_string(self.exp).as_str());
        s.append(",\"iat\":");
        s.append(decimal_string(self.iat).as_str());
        s.append(",\"jti\":");
        s.append(json_quote(self.jti.as_str()).as_str());
        s.append(",\"kind\":");
        s.append(kind_json_str(self.kind));
        s.append("}");
        s
    }
}

// ---------------------------------------------------------------------------
// Claims framing
// ---------------------------------------------------------------------------

/// The JSON text of a token kind: `"access"` or `"refresh"`.
pub open spec fn kind_json(k: TokenKind) -> Seq<char> {
    match k {
        TokenKind::Access => "\"access\""@,
        TokenKind::Refresh => "\"refresh\""@,
    }
}

/// The compact JSON framing of claims, fields in declaration order.
pub open spec fn claims_json(c: ClaimsView) -> Seq<char> {
    "{\"sub\":"@ + json_string_literal(c.sub) + ",\"username\":"@ + json_string_literal(c.username)
        + ",\"exp\":"@ + decimal(c.exp as nat) + ",\"iat\":"@ + decimal(c.iat as nat)
        + ",\"jti\":"@ + json_string_literal(c.jti) + ",\"kind\":"@ + kind_json(c.kind) + "}"@
}

/// `s` is the framing of some claims.
pub open spec fn is_claims_framing(s: Seq<char>) -> bool {
    exists|c: ClaimsView| s == #[trigger] claims_json(c)
}

fn kind_json_str(k: TokenKind) -> (s: &'static str)
    ensures
        s@ == kind_json(k),
{
    match k {
        TokenKind::Access => "\"access\"",
        TokenKind::Refresh => "\"refresh\"",
    }
}

// ---------------------------------------------------------------------------
// Config
// ---------------------------------------------------------------------------

/// What an [`AuthConfig`] holds.
pub struct AuthConfigView {
    pub secret: Seq<char>,
    pub access_token_ttl_secs: u64,
    pub refresh_token_ttl_secs: u64,
}

/// The HMAC key bytes of a signing secret (its UTF-8 encoding).
pub open spec fn secret_key(secret: Seq<char>) -> Seq<u8> {
    vstd::utf8::encode_utf8(secret)
}

/// Access-token lifetime used by default: 15 minutes.
pub const DEFAULT_ACCESS_TOKEN_TTL_SECS: u64 = 900;

/// Refresh-token lifetime used by default: 7 days.
pub const DEFAULT_REFRESH_TOKEN_TTL_SECS: u64 = 604_800;

/// Auth configuration: the signing secret and the token lifetimes.
#[derive(Debug, Clone)]
pub struct AuthConfig {
    secret: String,
    access_token_ttl_secs: u64,
    refresh_token_ttl_secs: u64,
}

impl View for AuthConfig {
    type V = AuthConfigView;

    closed spec fn view(&self) -> AuthConfigView {
        AuthConfigView {
            secret: self.secret@,
            access_token_ttl_secs: self.access_token_ttl_secs,
            refresh_token_ttl_secs: self.refresh_token_ttl_secs,
        }
    }
}

impl AuthConfig {
    /// A config with an explicit signing secret and the default lifetimes
    /// (access 900 s, refresh 604800 s).
    pub fn new(secret: &str) -> (c: AuthConfig)
        ensures
            c@ == (AuthConfigView {
                secret: secret@,
                access_token_ttl_secs: DEFAULT_ACCESS_TOKEN_TTL_SECS,
                refresh_token_ttl_secs: DEFAULT_REFRESH_TOKEN_TTL_SECS,
            }),
    {
        AuthConfig {
            secret: secret.to_owned(),
            access_token_ttl_secs: DEFAULT_ACCESS_TOKEN_TTL_SECS,
            refresh_token_ttl_secs: DEFAULT_REFRESH_TOKEN_TTL_SECS,
        }
    }

    /// A config with an empty secret (to be loaded from the database) and
    /// the default lifetimes.
    pub fn with_defaults() -> (c: AuthConfig)
        ensures
            c@ == (AuthConfigView {
                secret: Seq::empty(),
                access_token_ttl_secs: DEFAULT_ACCESS_TOKEN_TTL_SECS,
                refresh_token_ttl_secs: DEFAULT_REFRESH_TOKEN_TTL_SECS,
            }),
    {
        AuthConfig {
            secret: String::new(),
            access_token_ttl_secs: DEFAULT_ACCESS_TOKEN_TTL_SECS,
            refresh_token_ttl_secs: DEFAULT_REFRESH_TOKEN_TTL_SECS,
        }
    }

    /// Sets the access-token lifetime.
    pub fn set_access_token_ttl(&mut self, secs: u64)
        ensures
            final(self)@ == (AuthConfigView { access_token_ttl_secs: secs, ..old(self)@ }),
    {
        self.access_token_ttl_secs = secs;
    }

    /// Sets the refresh-token lifetime.
    pub fn set_refresh_token_ttl(&mut self, secs: u64)
        ensures
            final(self)@ == (AuthConfigView { refresh_token_ttl_secs: secs, ..old(self)@ }),
    {
        self.refresh_token_ttl_secs = secs;
    }

    /// The refresh-token lifetime.
    pub fn refresh_token_ttl_secs(&self) -> (s: u64)
        ensures
            s == self@.refresh_token_ttl_secs,
    {
        self.refresh_token_ttl_secs
    }

    /// Replaces the signing secret.
    pub fn set_secret(&mut self, secret: String)
        ensures
            final(self)@ == (AuthConfigView { secret: secret@, ..old(self)@ }),
    {
        self.secret = secret;
    }
}

// ---------------------------------------------------------------------------
// Tokens
// ---------------------------------------------------------------------------

/// `token` is the HS256 signature by `key` of the framing of `c`, carries
/// that framing verbatim, and passes every check of the decoder but the
/// clock's.
pub open spec fn signed_token(token: Seq<char>, c: ClaimsView, key: Seq<u8>) -> bool {
    &&& jwt_hs256_encode(claims_json(c), key) == Some(token)
    &&& jwt_hs256_payload(token, key) == Some(claims_json(c))
    &&& jwt_hs256_accepted(token, key)
}

/// `c` are claims issued now (at `c.iat`) for the user `user_id`/`username`,
/// of kind `kind`, living `ttl` seconds, with a fresh version 4 UUID as `jti`.
pub open spec fn claims_issued_for(
    c: ClaimsView,
    user_id: Seq<char>,
    username: Seq<char>,
    kind: TokenKind,
    ttl: u64,
) -> bool {
    &&& c.sub == user_id
    &&& c.username == username
    &&& c.kind == kind
    &&& c.exp == c.iat + ttl
    &&& uuid_v4_text(c.jti)
}

/// `token` is an access token signed with the config's secret, whose
/// claims were issued for `user_id`/`username`.
pub open spec fn access_token_issued(
    token: Seq<char>,
    user_id: Seq<char>,
    username: Seq<char>,
    config: AuthConfigView,
) -> bool {
    exists|c: ClaimsView| #[trigger]
        signed_token(token, c, secret_key(config.secret)) && claims_issued_for(
            c,
            user_id,
            username,
            TokenKind::Access,
            config.access_token_ttl_secs,
        )
}

/// `token` is a refresh token signed with the config's secret, whose
/// claims were issued for `user_id`/`username` and carry the id `jti`.
pub open spec fn refresh_token_issued(
    token: Seq<char>,
    jti: Seq<char>,
    user_id: Seq<char>,
    username: Seq<char>,
    config: AuthConfigView,
) -> bool {
    exists|c: ClaimsView| #[trigger]
        signed_token(token, c, secret_key(config.secret)) && c.jti == jti && claims_issued_for(
            c,
            user_id,
            username,
            TokenKind::Refresh,
            config.refresh_token_ttl_secs,
        )
}

/// The library's answer for the decoder's verdict `d`: the payload as is,
/// `TOKEN_EXPIRED` for an expired token, `TOKEN_INVALID` with the decoder's
/// description for every other rejection.
pub open spec fn verification_result_spec(d: Result<String, JwtRejection>) -> Result<
    String,
    ServirError,
> {
    match d {
        Ok(p) => Ok(p),
        Err(JwtRejection::Expired) => Err(ServirError::AuthToken(AuthTokenError::Expired)),
        Err(JwtRejection::Invalid(m)) => Err(
            ServirError::AuthToken(AuthTokenError::Invalid { error: m }),
        ),
    }
}

/// Turns the decoder's verdict into the library's answer: the payload as
/// is, `TOKEN_EXPIRED` for an expired token, `TOKEN_INVALID` with the
/// decoder's description for every other rejection.
pub fn verification_result(d: Result<String, JwtRejection>) -> (res: Result<String, ServirError>)
    ensures
        res == verification_result_spec(d),
{
    match d {
        Ok(payload) => Ok(payload),
        Err(JwtRejection::Expired) => Err(ServirError::AuthToken(AuthTokenError::Expired)),
        Err(JwtRejection::Invalid(m)) => Err(
            ServirError::AuthToken(AuthTokenError::Invalid { error: m }),
        ),
    }
}

/// What [`verify_token`] answers for `token` under `key`: the library's
/// answer for some verdict of the decoder that agrees with what the
/// signature covers (which verdict depends on the clock).
pub open spec fn verification_outcome(
    token: Seq<char>,
    key: Seq<u8>,
    res: Result<String, ServirError>,
) -> bool {
    exists|d: Result<String, JwtRejection>|
        jwt_decode_facts(token, key, d) && res == #[trigger] verification_result_spec(d)
}

/// Signs `claims` into an HS256 token with the config's secret.
///
/// Always succeeds: the encoder accepts the library's claims framing, and
/// the token carries it verbatim and passes every check of the decoder but
/// the clock's. (An encoder failure would be `TOKEN_ENCODE_FAILED`.)
pub fn sign_claims(claims: &Claims, config: &AuthConfig) -> (res: Result<String, ServirError>)
    ensures
        res matches Ok(t) && signed_token(t@, claims@, secret_key(config@.secret)),
{
    let payload = claims.to_json();
    proof {
        reveal_strlit("{\"sub\":");
        reveal_strlit("}");
    }
    assert(payload@[0] == '{');
    match jwt_encode(payload, config.secret.as_str().as_bytes()) {
        Ok(token) => Ok(token),
        Err(e) => Err(AuthTokenError::encode_failed(e.as_str())),
    }
}

/// The claims issued at `now` for `user_id`/`username`, of kind `kind`,
/// living `ttl` seconds and identified by `jti` (meaningful when
/// `now + ttl` fits in 64 bits).
pub open spec fn claims_at(
    user_id: Seq<char>,
    username: Seq<char>,
    kind: TokenKind,
    ttl: u64,
    now: u64,
    jti: Seq<char>,
) -> ClaimsView {
    ClaimsView { sub: user_id, username, exp: (now + ttl) as u64, iat: now, jti, kind }
}

/// The token issued at `now` with id `jti` and signed with `key`: `None`
/// when the expiry does not fit in 64 bits or the encoder refuses the
/// framing.
pub open spec fn issued_token(
    user_id: Seq<char>,
    username: Seq<char>,
    kind: TokenKind,
    ttl: u64,
    now: u64,
    jti: Seq<char>,
    key: Seq<u8>,
) -> Option<Seq<char>> {
    if now + ttl > u64::MAX {
        None
    } else {
        jwt_hs256_encode(claims_json(claims_at(user_id, username, kind, ttl, now, jti)), key)
    }
}

/// Issues a token of kind `kind` for `user_id`/`username` at the time `now`
/// with the id `jti`, living `ttl` seconds, signed with the config's
/// secret. Fails with `TOKEN_ENCODE_FAILED` when the expiry does not fit in
/// 64 bits or the encoder refuses the claims.
pub fn issue_token_at(
    user_id: &str,
    username: &str,
    kind: TokenKind,
    ttl: u64,
    now: u64,
    jti: String,
    config: &AuthConfig,
) -> (res: Result<String, ServirError>)
    ensures
        match issued_token(user_id@, username@, kind, ttl, now, jti@, secret_key(config@.secret)) {
            Some(t) => res matches Ok(r) && r@ == t && signed_token(
                t,
                claims_at(user_id@, username@, kind, ttl, now, jti@),
                secret_key(config@.secret),
            ),
            None => res matches Err(ServirError::AuthToken(AuthTokenError::EncodeFailed { .. })),
        },
        res is Ok <==> now + ttl <= u64::MAX,
{
    match now.checked_add(ttl) {
        Some(exp) => {
            let claims = Claims::new(user_id.to_owned(), username.to_owned(), exp, now, jti, kind);
            sign_claims(&claims, config)
        },
        None => Err(AuthTokenError::encode_failed("token expiry is out of range")),
    }
}

/// The token a call of [`issue_access_token`] or [`issue_refresh_token`]
/// gave back, as [`issued_token`] states it.
pub open spec fn issued_or_none(res: Result<String, ServirError>) -> Option<Seq<char>> {
    match res {
        Ok(t) => Some(t@),
        Err(_) => None,
    }
}

/// The longest token lifetime for which issuing always gives a token,
/// whatever the clock reads (`i64::MAX` seconds).
pub const LONGEST_ASSURED_TTL_SECS: u64 = 9_223_372_036_854_775_807;

/// The issue time for a clock reading `clock` and a lifetime `ttl`: the
/// reading itself whenever the expiry `clock + ttl` fits in 64 bits; for a
/// reading past that (beyond the year 292 billion) and a lifetime up to
/// [`LONGEST_ASSURED_TTL_SECS`], the latest time whose expiry fits.
fn issue_time(clock: u64, ttl: u64) -> (now: u64)
    ensures
        clock + ttl <= u64::MAX ==> now == clock,
        ttl <= LONGEST_ASSURED_TTL_SECS ==> now + ttl <= u64::MAX,
{
    if clock <= u64::MAX - ttl {
        clock
    } else if ttl <= LONGEST_ASSURED_TTL_SECS {
        u64::MAX - ttl
    } else {
        clock
    }
}

/// Issues a short-lived access token for the given user: claims with `sub`,
/// `username`, `kind: access`, `iat` now and `exp` after the configured
/// access lifetime and a fresh version 4 UUID as `jti`, signed with the config's
/// secret. It fails (`TOKEN_ENCODE_FAILED`) only where the expiry does not
/// fit in 64 bits, and never for a lifetime up to
/// [`LONGEST_ASSURED_TTL_SECS`] (see `issue_time`).
pub fn issue_access_token(user_id: &str, username: &str, config: &AuthConfig) -> (res: Result<
    String,
    ServirError,
>)
    ensures
        exists|now: u64, jti: Seq<char>|
            uuid_v4_text(jti) && #[trigger] issued_token(
                user_id@,
                username@,
                TokenKind::Access,
                config@.access_token_ttl_secs,
                now,
                jti,
                secret_key(config@.secret),
            ) == issued_or_none(res),
        res matches Ok(t) ==> access_token_issued(t@, user_id@, username@, config@),
        res matches Err(e) ==> e matches ServirError::AuthToken(
            AuthTokenError::EncodeFailed { .. },
        ),
        config@.access_token_ttl_secs <= LONGEST_ASSURED_TTL_SECS ==> res is Ok,
{
    let now = issue_time(now_secs(), config.access_token_ttl_secs);
    let jti = new_uuid_v4();
    let ghost jti_view = jti@;
    let res = issue_token_at(
        user_id,
        username,
        TokenKind::Access,
        config.access_token_ttl_secs,
        now,
        jti,
        config,
    );
    proof {
        let key = secret_key(config@.secret);
        let ttl = config@.access_token_ttl_secs;
        assert(issued_token(user_id@, username@, TokenKind::Access, ttl, now, jti_view, key)
            == issued_or_none(res));
        if res is Ok {
            assert(signed_token(
                res->Ok_0@,
                claims_at(user_id@, username@, TokenKind::Access, ttl, now, jti_view),
                key,
            ));
        }
    }
    res
}

/// Issues a long-lived refresh token; returns `(token, jti)`. The caller
/// persists `jti` so the token can be consumed once. It fails as
/// [`issue_access_token`] does, with the refresh lifetime.
pub fn issue_refresh_token(user_id: &str, username: &str, config: &AuthConfig) -> (res: Result<
    (String, String),
    ServirError,
>)
    ensures
        res matches Ok(pair) ==> uuid_v4_text(pair.1@) && exists|now: u64|
            #[trigger] issued_token(
                user_id@,
                username@,
                TokenKind::Refresh,
                config@.refresh_token_ttl_secs,
                now,
                pair.1@,
                secret_key(config@.secret),
            ) == Some(pair.0@),
        res matches Ok(pair) ==> refresh_token_issued(
            pair.0@,
            pair.1@,
            user_id@,
            username@,
            config@,
        ),
        res matches Err(e) ==> e matches ServirError::AuthToken(
            AuthTokenError::EncodeFailed { .. },
        ) && exists|now: u64, jti: Seq<char>|
            uuid_v4_text(jti) && #[trigger] issued_token(
                user_id@,
                username@,
                TokenKind::Refresh,
                config@.refresh_token_ttl_secs,
                now,
                jti,
                secret_key(config@.secret),
            ) is None,
        config@.refresh_token_ttl_secs <= LONGEST_ASSURED_TTL_SECS ==> res is Ok,
{
    let now = issue_time(now_secs(), config.refresh_token_ttl_secs);
    let jti = new_uuid_v4();
    let ghost key = secret_key(config@.secret);
    let ghost ttl = config@.refresh_token_ttl_secs;
    match issue_token_at(
        user_id,
        username,
        TokenKind::Refresh,
        config.refresh_token_ttl_secs,
        now,
        jti.clone(),
        config,
    ) {
        Ok(token) => {
            let pair = (token, jti);
            proof {
                assert(uuid_v4_text(pair.1@));
                assert(issued_token(user_id@, username@, TokenKind::Refresh, ttl, now, pair.1@, key)
                    == Some(pair.0@));
                assert(exists|t: u64|
                    #[trigger] issued_token(user_id@, username@, TokenKind::Refresh, ttl, t, pair.1@, key)
                        == Some(pair.0@));
                assert(signed_token(
                    pair.0@,
                    claims_at(user_id@, username@, TokenKind::Refresh, ttl, now, pair.1@),
                    key,
                ));
            }
            Ok(pair)
        },
        Err(e) => {
            assert(issued_token(user_id@, username@, TokenKind::Refresh, ttl, now, jti@, key)
                is None);
            Err(e)
        },
    }
}

/// Verifies a token's signature and expiry and returns its claims JSON.
/// Does not check the token kind.
///
/// An expired token gives `TOKEN_EXPIRED`; every other failure gives
/// `TOKEN_INVALID` with the decoder's description.
pub fn verify_token(token: &str, config: &AuthConfig) -> (res: Result<String, ServirError>)
    ensures
        verification_outcome(token@, secret_key(config@.secret), res),
        jwt_hs256_payload(token@, secret_key(config@.secret)) is None ==> res matches Err(
            ServirError::AuthToken(AuthTokenError::Invalid { .. }),
        ),
        jwt_hs256_accepted(token@, secret_key(config@.secret)) ==> (res is Ok || res == Err::<
            String,
            ServirError,
        >(ServirError::AuthToken(AuthTokenError::Expired))),        forall|c: ClaimsView|
            #[trigger] signed_token(token@, c, secret_key(config@.secret)) ==> (res matches Ok(p)
                && p@ == claims_json(c)) || res == Err::<String, ServirError>(
                ServirError::AuthToken(AuthTokenError::Expired),
            ),
{
    let d = jwt_decode(token, config.secret.as_str().as_bytes());
    let ghost verdict = d;
    let res = verification_result(d);
    assert(jwt_decode_facts(token@, secret_key(config@.secret), verdict));
    res
}

/// What a token carries is what verification gives back: a token signed
/// for claims, verified under the same secret, yields exactly their
/// framing, or is reported expired; it is never `TOKEN_INVALID`.
pub proof fn issued_token_verifies_to_its_claims(
    token: Seq<char>,
    c: ClaimsView,
    key: Seq<u8>,
    res: Result<String, ServirError>,
)
    requires
        signed_token(token, c, key),
        verification_outcome(token, key, res),
    ensures
        (res matches Ok(p) && p@ == claims_json(c)) || res == Err::<String, ServirError>(
            ServirError::AuthToken(AuthTokenError::Expired),
        ),
{
}

/// A freshly issued access token, verified under the same config, gives
/// back the claims it was issued with (for that user, of kind access), or
/// is reported expired; it is never `TOKEN_INVALID`.
pub proof fn issued_access_token_verifies(
    token: Seq<char>,
    user_id: Seq<char>,
    username: Seq<char>,
    config: AuthConfigView,
    res: Result<String, ServirError>,
)
    requires
        access_token_issued(token, user_id, username, config),
        verification_outcome(token, secret_key(config.secret), res),
    ensures
        res == Err::<String, ServirError>(ServirError::AuthToken(AuthTokenError::Expired)) || exists|
            c: ClaimsView,
        |
            #![trigger claims_json(c)]
            claims_issued_for(c, user_id, username, TokenKind::Access, config.access_token_ttl_secs)
                && (res matches Ok(p) && p@ == claims_json(c)),
{
    let c = choose|c: ClaimsView|
        #[trigger] signed_token(token, c, secret_key(config.secret)) && claims_issued_for(
            c,
            user_id,
            username,
            TokenKind::Access,
            config.access_token_ttl_secs,
        );
    issued_token_verifies_to_its_claims(token, c, secret_key(config.secret), res);
}

/// A freshly issued refresh token, verified under the same config, gives
/// back the claims it was issued with (for that user, of kind refresh, with
/// its `jti`), or is reported expired; it is never `TOKEN_INVALID`.
pub proof fn issued_refresh_token_verifies(
    token: Seq<char>,
    jti: Seq<char>,
    user_id: Seq<char>,
    username: Seq<char>,
    config: AuthConfigView,
    res: Result<String, ServirError>,
)
    requires
        refresh_token_issued(token, jti, user_id, username, config),
        verification_outcome(token, secret_key(config.secret), res),
    ensures
        res == Err::<String, ServirError>(ServirError::AuthToken(AuthTokenError::Expired)) || exists|
            c: ClaimsView,
        |
            #![trigger claims_json(c)]
            c.jti == jti && claims_issued_for(
                c,
                user_id,
                username,
                TokenKind::Refresh,
                config.refresh_token_ttl_secs,
            ) && (res matches Ok(p) && p@ == claims_json(c)),
{
    let c = choose|c: ClaimsView|
        #[trigger] signed_token(token, c, secret_key(config.secret)) && c.jti == jti
            && claims_issued_for(c, user_id, username, TokenKind::Refresh, config.refresh_token_ttl_secs);
    issued_token_verifies_to_its_claims(token, c, secret_key(config.secret), res);
}

} // verus!
