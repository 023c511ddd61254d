//! What the auth store computes around its database calls: the user record,
//! fresh user IDs, the classification of a failed insert, and the
//! generation of a signing secret.

use vstd::prelude::*;

use crate::auth::jwt::{new_uuid_v4, uuid_v4_text};
use crate::error::{AuthUserError, DbError, ServirError};
use crate::json::hex_digit;

verus! {

// ---------------------------------------------------------------------------
// User
// ---------------------------------------------------------------------------

/// What a [`User`] holds.
pub struct UserView {
    pub id: Seq<char>,
    pub username: Seq<char>,
    pub password_hash: Seq<char>,
}

/// A stored user: ID, unique username and Argon2 PHC password hash.
#[derive(Debug)]
pub struct User {
    id: String,
    username: String,
    password_hash: String,
}

impl View for User {
    type V = UserView;

    closed spec fn view(&self) -> UserView {
        UserView { id: self.id@, username: self.username@, password_hash: self.password_hash@ }
    }
}

impl User {
    /// A user record from its stored columns.
    pub fn new(id: String, username: String, password_hash: String) -> (u: User)
        ensures
            u@ == (UserView { id: id@, username: username@, password_hash: password_hash@ }),
    {
        User { id, username, password_hash }
    }

    /// The user's ID.
    pub fn id(&self) -> (s: &str)
        ensures
            s@ == self@.id,
    {
        self.id.as_str()
    }

    /// The user's username.
    pub fn username(&self) -> (s: &str)
        ensures
            s@ == self@.username,
    {
        self.username.as_str()
    }

    /// The user's Argon2 PHC password hash.
    pub fn password_hash(&self) -> (s: &str)
        ensures
            s@ == self@.password_hash,
    {
        self.password_hash.as_str()
    }
}

/// A fresh ID for a new user: a random UUID (v4) in hyphenated form.
pub fn new_user_id() -> (id: String)
    ensures
        uuid_v4_text(id@),
{
    new_uuid_v4()
}

/// The error reported when inserting the user `username` failed with the
/// database message `error`: `ALREADY_EXISTS` (409) when the insert broke
/// the unique constraint on usernames, `DB_USER_CREATE_FAILED` otherwise.
pub fn user_create_failure(username: &str, unique_violation: bool, error: &str) -> (e: ServirError)
    ensures
        unique_violation ==> (e matches ServirError::AuthUser(
            AuthUserError::AlreadyExists { username: u, error: m },
        ) && u@ == username@ && m@ == error@),
        !unique_violation ==> (e matches ServirError::Db(
            DbError::UserCreate { username: u, error: m },
        ) && u@ == username@ && m@ == error@),
{
    if unique_violation {
        AuthUserError::already_exists(username, error)
    } else {
        DbError::user_create(username, error)
    }
}

// ---------------------------------------------------------------------------
// Refresh tokens
// ---------------------------------------------------------------------------

/// When a refresh token stored at the UNIX time `now` with a lifetime of
/// `ttl_secs` seconds expires: `now` plus the lifetime taken as an `i64`
/// (a lifetime above `i64::MAX` wraps, as the cast does).
pub fn refresh_token_expiry(now: i64, ttl_secs: u64) -> (expires_at: i64)
    requires
        i64::MIN <= now + (ttl_secs as i64) <= i64::MAX,
    ensures
        expires_at == now + (ttl_secs as i64),
{
    let ttl = ttl_secs as i64;
    now + ttl
}

// ---------------------------------------------------------------------------
// Signing secret
// ---------------------------------------------------------------------------

/// The lowercase hexadecimal encoding of `bytes`, two digits per byte, most
/// significant digit first.
pub open spec fn hex_lower(bytes: Seq<u8>) -> Seq<char>
    decreases bytes.len(),
{
    if bytes.len() == 0 {
        Seq::empty()
    } else {
        hex_lower(bytes.drop_last()) + seq![
            hex_digit((bytes.last() / 16) as nat),
            hex_digit((bytes.last() % 16) as nat),
        ]
    }
}

/// Number of random bytes in a signing secret.
pub const SIGNING_SECRET_BYTES: usize = 32;

/// Fills `buf` with random bytes from the operating system with
/// `getrandom::fill`; false when the OS source failed. The length of `buf`
/// is unchanged; nothing is stated of the bytes.
#[verifier::external_body]
fn fill_random(buf: &mut Vec<u8>) -> (ok: bool)
    ensures
        final(buf)@.len() == old(buf)@.len(),
{
    getrandom::fill(buf.as_mut_slice()).is_ok()
}

/// Lowercase hexadecimal encoding with `hex::encode`, which writes two
/// digits from `0123456789abcdef` per byte, high nibble first.
#[verifier::external_body]
fn hex_encode(bytes: &[u8]) -> (s: String)
    ensures
        s@ == hex_lower(bytes@),
{
    hex::encode(bytes)
}

/// The hex encoding has two digits per byte.
pub proof fn lemma_hex_lower_len(bytes: Seq<u8>)
    ensures
        hex_lower(bytes).len() == 2 * bytes.len(),
    decreases bytes.len(),
{
    if bytes.len() > 0 {
        lemma_hex_lower_len(bytes.drop_last());
    }
}

/// The signing secret made of `bytes`: their lowercase hex encoding, two
/// digits per byte.
pub fn signing_secret_from(bytes: &[u8]) -> (s: String)
    ensures
        s@ == hex_lower(bytes@),
        s@.len() == 2 * bytes@.len(),
{
    proof {
        lemma_hex_lower_len(bytes@);
    }
    hex_encode(bytes)
}

/// A fresh signing secret: 32 random bytes from the OS, hex-encoded
/// (64 characters). `None` exactly when `getrandom::fill` reports that the
/// OS random source failed; whether it does is up to the OS, so no clause
/// states it.
pub fn generate_signing_secret() -> (res: Option<String>)
    ensures
        res matches Some(s) ==> s@.len() == 64 && exists|b: Seq<u8>|
            b.len() == SIGNING_SECRET_BYTES && #[trigger] hex_lower(b) == s@,
{
    let mut bytes: Vec<u8> = Vec::new();
    let mut i: usize = 0;
    while i < SIGNING_SECRET_BYTES
        invariant
            i <= SIGNING_SECRET_BYTES,
            bytes@.len() == i,
        decreases SIGNING_SECRET_BYTES - i,
    {
        bytes.push(0u8);
        i = i + 1;
    }
    if fill_random(&mut bytes) {
        Some(signing_secret_from(bytes.as_slice()))
    } else {
        None
    }
}

} // verus!
