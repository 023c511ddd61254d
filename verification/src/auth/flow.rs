//! The order in which the register, login and refresh routes consult the
//! store: a step function from where a request stands and what the store
//! last answered to where it stands next and what to do.

use vstd::prelude::*;

use crate::auth::claims::{
    access_token_issued, refresh_token_issued, AuthConfig, AuthConfigView, Claims, TokenKind,
    LONGEST_ASSURED_TTL_SECS,
};
use crate::auth::http::{
    authenticate, invalid_credentials_for, issue_token_pair, pair_issue_fails, prepare_registration,
    registration_verdict, require_consumed, require_token_kind, require_user, TokenPair,
};
use crate::auth::password::{argon2_accepts, argon2_phc_hash, hashes_password, phc_well_formed};
use crate::db::{User, UserView};
use crate::error::{AuthTokenError, AuthUserError, ServirError};

verus! {

/// Where an auth request stands while it waits for the store.
pub enum FlowState {
    /// Registration: the new user is being inserted.
    Creating,
    /// Login as `username` with `password`: the user is being looked up.
    LoggingIn { username: String, password: String },
    /// Refresh: the verified claims of the presented token are awaited.
    Verifying,
    /// Refresh: the refresh token with these claims is being consumed.
    Consuming { claims: Claims },
    /// Refresh: the token was consumed; the user it names is being looked up.
    LookingUp { claims: Claims },
    /// A token pair was issued; its refresh token is being stored.
    Storing { pair: TokenPair },
}

/// What the store (or, for `Verified`, the token check) answered.
pub enum FlowEvent {
    Created(Result<User, ServirError>),
    FoundByName(Result<Option<User>, ServirError>),
    Verified(Result<Claims, ServirError>),
    Consumed(Result<bool, ServirError>),
    FoundById(Result<Option<User>, ServirError>),
    Stored(Result<(), ServirError>),
}

/// What to do next: a store call, or the answer to the request.
pub enum FlowAction {
    CreateUser { username: String, password_hash: String },
    FindUserByUsername { username: String },
    ConsumeRefreshToken { jti: String },
    FindUserById { user_id: String },
    StoreRefreshToken { jti: String, user_id: String, username: String, ttl_secs: u64 },
    Respond(Result<TokenPair, ServirError>),
}

/// `p` is a token pair issued for the user `u` under `config`.
pub open spec fn pair_issued_for(p: TokenPair, u: UserView, config: AuthConfigView) -> bool {
    &&& access_token_issued(p.access_token@, u.id, u.username, config)
    &&& refresh_token_issued(p.refresh_token@, p.jti@, u.id, u.username, config)
}

/// The request ends with `res`.
pub open spec fn ends_with(
    r: (Option<FlowState>, FlowAction),
    res: Result<TokenPair, ServirError>,
) -> bool {
    r.0 is None && r.1 == FlowAction::Respond(res)
}

/// The step once the user `u` is known: issue a pair for `u` and store its
/// refresh token; or, only where a lifetime exceeds
/// [`LONGEST_ASSURED_TTL_SECS`] and issuing at the time read gives no
/// token, end with `TOKEN_ENCODE_FAILED`.
pub open spec fn issue_step(u: UserView, config: AuthConfigView, r: (Option<FlowState>, FlowAction)) -> bool {
    match r.0 {
        Some(FlowState::Storing { pair }) => {
            &&& pair_issued_for(pair, u, config)
            &&& r.1 matches FlowAction::StoreRefreshToken { jti, user_id, username, ttl_secs }
            &&& jti@ == pair.jti@
            &&& user_id@ == u.id
            &&& username@ == u.username
            &&& ttl_secs == config.refresh_token_ttl_secs
        },
        None => {
            &&& r.1 matches FlowAction::Respond(
                Err(ServirError::AuthToken(AuthTokenError::EncodeFailed { .. })),
            )
            &&& pair_issue_fails(u, config)
            &&& (config.access_token_ttl_secs > LONGEST_ASSURED_TTL_SECS
                || config.refresh_token_ttl_secs > LONGEST_ASSURED_TTL_SECS)
        },
        _ => false,
    }
}

/// The event answers the question the state asked.
pub open spec fn event_fits(state: FlowState, event: FlowEvent) -> bool {
    match (state, event) {
        (FlowState::Creating, FlowEvent::Created(_)) => true,
        (FlowState::LoggingIn { .. }, FlowEvent::FoundByName(_)) => true,
        (FlowState::Verifying, FlowEvent::Verified(_)) => true,
        (FlowState::Consuming { .. }, FlowEvent::Consumed(_)) => true,
        (FlowState::LookingUp { .. }, FlowEvent::FoundById(_)) => true,
        (FlowState::Storing { .. }, FlowEvent::Stored(_)) => true,
        _ => false,
    }
}

/// Where a request goes from `state` on `event`: a store failure ends it
/// with that failure; a user insert or a successful login issues a pair; a
/// verified refresh token of the wrong kind ends with `WRONG_TOKEN_KIND`,
/// one of the right kind is consumed; a token that was not consumed ends
/// with `INVALID_REFRESH_TOKEN`, one that was has its user looked up; a
/// missing user ends with `USER_NOT_FOUND`, a found one gets a pair; a
/// stored pair is the answer.
pub open spec fn flow_next(
    state: FlowState,
    event: FlowEvent,
    config: AuthConfigView,
    r: (Option<FlowState>, FlowAction),
) -> bool {
    match (state, event) {
        (FlowState::Creating, FlowEvent::Created(Err(e))) => ends_with(r, Err(e)),
        (FlowState::Creating, FlowEvent::Created(Ok(u))) => issue_step(u@, config, r),
        (FlowState::LoggingIn { .. }, FlowEvent::FoundByName(Err(e))) => ends_with(r, Err(e)),
        (FlowState::LoggingIn { username, password }, FlowEvent::FoundByName(Ok(found))) => {
            match found {
                None => {
                    &&& r.0 is None
                    &&& r.1 matches FlowAction::Respond(res) && invalid_credentials_for(res, username@)
                },
                Some(u) => if !phc_well_formed(u@.password_hash) {
                    r.0 is None && r.1 matches FlowAction::Respond(
                        Err(ServirError::AuthUser(AuthUserError::PasswordHashFailed { .. })),
                    )
                } else if argon2_accepts(password@, u@.password_hash) {
                    issue_step(u@, config, r)
                } else {
                    &&& r.0 is None
                    &&& r.1 matches FlowAction::Respond(res) && invalid_credentials_for(res, username@)
                },
            }
        },
        (FlowState::Verifying, FlowEvent::Verified(Err(e))) => ends_with(r, Err(e)),
        (FlowState::Verifying, FlowEvent::Verified(Ok(c))) => if c@.kind == TokenKind::Refresh {
            &&& r.0 == Some(FlowState::Consuming { claims: c })
            &&& r.1 matches FlowAction::ConsumeRefreshToken { jti }
            &&& jti@ == c@.jti
        } else {
            ends_with(r, Err(ServirError::AuthToken(AuthTokenError::WrongKind)))
        },
        (FlowState::Consuming { .. }, FlowEvent::Consumed(Err(e))) => ends_with(r, Err(e)),
        (FlowState::Consuming { claims }, FlowEvent::Consumed(Ok(consumed))) => if consumed {
            &&& r.0 == Some(FlowState::LookingUp { claims })
            &&& r.1 matches FlowAction::FindUserById { user_id }
            &&& user_id@ == claims@.sub
        } else {
            ends_with(r, Err(ServirError::AuthToken(AuthTokenError::InvalidRefreshToken)))
        },
        (FlowState::LookingUp { .. }, FlowEvent::FoundById(Err(e))) => ends_with(r, Err(e)),
        (FlowState::LookingUp { claims }, FlowEvent::FoundById(Ok(found))) => match found {
            None => {
                &&& r.0 is None
                &&& r.1 matches FlowAction::Respond(
                    Err(ServirError::AuthToken(AuthTokenError::UserNotFound { user_id: n })),
                ) && n@ == claims@.sub
            },
            Some(u) => issue_step(u@, config, r),
        },
        (FlowState::Storing { .. }, FlowEvent::Stored(Err(e))) => ends_with(r, Err(e)),
        (FlowState::Storing { pair }, FlowEvent::Stored(Ok(()))) => ends_with(r, Ok(pair)),
        _ => false,
    }
}

/// The pair in `r` was issued for a user the store returned: after its
/// insert, after a login whose password the stored hash accepts, or after a
/// consumed refresh token's user was found.
pub open spec fn issued_for_returned_user(
    state: FlowState,
    event: FlowEvent,
    pair: TokenPair,
    config: AuthConfigView,
) -> bool {
    match (state, event) {
        (FlowState::Creating, FlowEvent::Created(Ok(u))) => pair_issued_for(pair, u@, config),
        (FlowState::LoggingIn { password, .. }, FlowEvent::FoundByName(Ok(Some(u)))) => {
            &&& phc_well_formed(u@.password_hash)
            &&& argon2_accepts(password@, u@.password_hash)
            &&& pair_issued_for(pair, u@, config)
        },
        (FlowState::LookingUp { .. }, FlowEvent::FoundById(Ok(Some(u)))) => pair_issued_for(
            pair,
            u@,
            config,
        ),
        _ => false,
    }
}

/// The routes keep their order: a request is answered with tokens only once
/// their refresh token was stored; a pair is issued only for a user the
/// store returned (after its insert, after a login whose password the
/// stored hash accepts, or after a consumed refresh token's user was
/// found); a refresh token's user is looked up only after the store
/// consumed the token; and a token is consumed only after it verified as a
/// refresh token.
pub proof fn routes_keep_their_order(
    state: FlowState,
    event: FlowEvent,
    config: AuthConfigView,
    r: (Option<FlowState>, FlowAction),
)
    requires
        flow_next(state, event, config, r),
    ensures
        r.1 matches FlowAction::Respond(Ok(p)) ==> state == (FlowState::Storing { pair: p })
            && event == FlowEvent::Stored(Ok(())),
        r.0 matches Some(FlowState::Storing { pair }) ==> issued_for_returned_user(
            state,
            event,
            pair,
            config,
        ),
        r.0 matches Some(FlowState::LookingUp { claims }) ==> state == (FlowState::Consuming {
            claims,
        }) && event == FlowEvent::Consumed(Ok(true)),
        r.0 matches Some(FlowState::Consuming { claims }) ==> state == FlowState::Verifying && event
            == FlowEvent::Verified(Ok(claims)) && claims@.kind == TokenKind::Refresh,
{
    match (state, event) {
        (FlowState::Storing { pair }, FlowEvent::Stored(Ok(u))) => {
            assert(u == ());
        },
        _ => {},
    }
}

/// `r` goes on to store a new pair issued for `u` under `config`: the state
/// holds the pair, and the store is asked to keep its refresh token's id
/// for `u` with the configured refresh lifetime.
pub open spec fn stores_pair_for(r: (Option<FlowState>, FlowAction), u: UserView, config: AuthConfigView) -> bool {
    r.0 matches Some(FlowState::Storing { pair }) && pair_issued_for(pair, u, config) && (
    r.1 matches FlowAction::StoreRefreshToken { jti, user_id, username, ttl_secs } && jti@
        == pair.jti@ && user_id@ == u.id && username@ == u.username && ttl_secs
        == config.refresh_token_ttl_secs)
}

/// Once the store has returned the user a consumed refresh token names, the
/// refresh goes on to store a new pair issued for that user; with token
/// lifetimes up to [`LONGEST_ASSURED_TTL_SECS`] (the defaults are 900 and
/// 604800 seconds) it never fails at this step.
pub proof fn refresh_of_found_user_issues_a_pair(
    claims: Claims,
    u: User,
    config: AuthConfigView,
    r: (Option<FlowState>, FlowAction),
)
    requires
        config.access_token_ttl_secs <= LONGEST_ASSURED_TTL_SECS,
        config.refresh_token_ttl_secs <= LONGEST_ASSURED_TTL_SECS,
        flow_next(FlowState::LookingUp { claims }, FlowEvent::FoundById(Ok(Some(u))), config, r),
    ensures
        stores_pair_for(r, u@, config),
{
}

/// A login whose password the stored hash was made from always goes on to
/// store a new pair issued for the stored user; with token lifetimes up to
/// [`LONGEST_ASSURED_TTL_SECS`] it never fails at this step.
pub proof fn login_with_registered_password_issues_a_pair(
    username: String,
    password: String,
    u: User,
    config: AuthConfigView,
    r: (Option<FlowState>, FlowAction),
)
    requires
        config.access_token_ttl_secs <= LONGEST_ASSURED_TTL_SECS,
        config.refresh_token_ttl_secs <= LONGEST_ASSURED_TTL_SECS,
        hashes_password(u@.password_hash, password@),
        flow_next(
            FlowState::LoggingIn { username, password },
            FlowEvent::FoundByName(Ok(Some(u))),
            config,
            r,
        ),
    ensures
        stores_pair_for(r, u@, config),
{
}

/// Once the store has inserted the new user, a registration goes on to
/// store a new pair issued for that user; with token lifetimes up to
/// [`LONGEST_ASSURED_TTL_SECS`] it never fails at this step.
pub proof fn registration_of_inserted_user_issues_a_pair(
    u: User,
    config: AuthConfigView,
    r: (Option<FlowState>, FlowAction),
)
    requires
        config.access_token_ttl_secs <= LONGEST_ASSURED_TTL_SECS,
        config.refresh_token_ttl_secs <= LONGEST_ASSURED_TTL_SECS,
        flow_next(FlowState::Creating, FlowEvent::Created(Ok(u)), config, r),
    ensures
        stores_pair_for(r, u@, config),
{
}

/// Issues a pair for `user` and asks for its refresh token to be stored.
fn issue_for(user: User, config: &AuthConfig) -> (r: (Option<FlowState>, FlowAction))
    ensures
        issue_step(user@, config@, r),
{
    match issue_token_pair(&user, config) {
        Ok(pair) => {
            let action = FlowAction::StoreRefreshToken {
                jti: pair.jti.clone(),
                user_id: user.id().to_owned(),
                username: user.username().to_owned(),
                ttl_secs: config.refresh_token_ttl_secs(),
            };
            (Some(FlowState::Storing { pair }), action)
        },
        Err(e) => (None, FlowAction::Respond(Err(e))),
    }
}

/// Starts a registration as `username` with `password`: the input checks
/// and the password hash, then the insert of the user.
pub fn register_start(username: &str, password: &str) -> (r: (Option<FlowState>, FlowAction))
    ensures
        registration_verdict(username@, password@) is Err ==> ends_with(
            r,
            Err(registration_verdict(username@, password@)->Err_0),
        ),
        registration_verdict(username@, password@) is Ok ==> match r.0 {
            Some(s) => {
                &&& s == FlowState::Creating
                &&& r.1 matches FlowAction::CreateUser { username: n, password_hash: h } && n@
                    == username@ && hashes_password(h@, password@)
            },
            None => r.1 matches FlowAction::Respond(
                Err(ServirError::AuthUser(AuthUserError::PasswordHashFailed { .. })),
            ) && exists|salt: Seq<char>| #[trigger] argon2_phc_hash(password@, salt) is None,
        },
{
    match prepare_registration(username, password) {
        Ok(hash) => (
            Some(FlowState::Creating),
            FlowAction::CreateUser { username: username.to_owned(), password_hash: hash },
        ),
        Err(e) => (None, FlowAction::Respond(Err(e))),
    }
}

/// Starts a login as `username` with `password`: the lookup of the user.
pub fn login_start(username: String, password: String) -> (r: (FlowState, FlowAction))
    ensures
        r.0 == (FlowState::LoggingIn { username, password }),
        r.1 matches FlowAction::FindUserByUsername { username: n } && n@ == username@,
{
    let lookup = FlowAction::FindUserByUsername { username: username.clone() };
    (FlowState::LoggingIn { username, password }, lookup)
}

/// Takes a request one step further: from where it stands and what the
/// store answered to where it stands next and what to do.
pub fn flow_step(state: FlowState, event: FlowEvent, config: &AuthConfig) -> (r: (
    Option<FlowState>,
    FlowAction,
))
    requires
        event_fits(state, event),
    ensures
        flow_next(state, event, config@, r),
{
    match (state, event) {
        (FlowState::Creating, FlowEvent::Created(Ok(user))) => issue_for(user, config),
        (FlowState::LoggingIn { username, password }, FlowEvent::FoundByName(Ok(found))) => {
            match authenticate(username.as_str(), password.as_str(), found) {
                Ok(user) => issue_for(user, config),
                Err(e) => (None, FlowAction::Respond(Err(e))),
            }
        },
        (FlowState::Verifying, FlowEvent::Verified(Ok(claims))) => {
            match require_token_kind(&claims, TokenKind::Refresh) {
                Ok(()) => {
                    let consume = FlowAction::ConsumeRefreshToken { jti: claims.jti().to_owned() };
                    (Some(FlowState::Consuming { claims }), consume)
                },
                Err(e) => (None, FlowAction::Respond(Err(e))),
            }
        },
        (FlowState::Consuming { claims }, FlowEvent::Consumed(Ok(consumed))) => {
            match require_consumed(consumed) {
                Ok(()) => {
                    let lookup = FlowAction::FindUserById { user_id: claims.sub().to_owned() };
                    (Some(FlowState::LookingUp { claims }), lookup)
                },
                Err(e) => (None, FlowAction::Respond(Err(e))),
            }
        },
        (FlowState::LookingUp { claims }, FlowEvent::FoundById(Ok(found))) => {
            match require_user(found, claims.sub()) {
                Ok(user) => issue_for(user, config),
                Err(e) => (None, FlowAction::Respond(Err(e))),
            }
        },
        (FlowState::Storing { pair }, FlowEvent::Stored(Ok(()))) => (
            None,
            FlowAction::Respond(Ok(pair)),
        ),
        (_, FlowEvent::Created(Err(e)))
        | (_, FlowEvent::FoundByName(Err(e)))
        | (_, FlowEvent::Verified(Err(e)))
        | (_, FlowEvent::Consumed(Err(e)))
        | (_, FlowEvent::FoundById(Err(e)))
        | (_, FlowEvent::Stored(Err(e))) => (None, FlowAction::Respond(Err(e))),
        // A successful answer to a question the state did not ask: ruled
        // out by `event_fits`.
        _ => (None, FlowAction::Respond(Err(ServirError::NotFound))),
    }
}

} // verus!
