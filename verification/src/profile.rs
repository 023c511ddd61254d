//! The app-level profile a consumer server keeps for each authenticated user.

use vstd::prelude::*;

verus! {

/// A user's app-level profile, keyed by the auth user ID.
#[derive(Debug, Clone)]
pub struct UserProfile {
    pub id: String,
    pub username: String,
    pub created_at: i64,
}

impl UserProfile {
    /// The profile created on a user's first access: keyed by the auth user
    /// ID, with the auth username, created at `now`.
    pub fn first_access(user_id: &str, username: &str, now: i64) -> (p: UserProfile)
        ensures
            p.id@ == user_id@,
            p.username@ == username@,
            p.created_at == now,
    {
        UserProfile { id: user_id.to_owned(), username: username.to_owned(), created_at: now }
    }
}

} // verus!
