//! Users, the profile shown of them, and their SSH keys.
//!
//! Ids are UUIDs held as their 128-bit values; times are seconds and
//! nanoseconds since the Unix epoch, in UTC.
use vstd::prelude::*;
use vstd::std_specs::convert::FromSpecImpl;

verus! {

/// A point in time: seconds since the Unix epoch, UTC, and nanoseconds within the second.
#[derive(Debug, Clone, Copy, PartialEq, Eq, Structural)]
pub struct Timestamp {
    pub seconds: i64,
    pub nanos: u32,
}

/// A user account as stored.
pub struct User {
    pub id: u128,
    pub email: String,
    pub username: String,
    pub password_hash: Option<String>,
    pub github_id: Option<i64>,
    pub okta_sub: Option<String>,
    pub display_name: Option<String>,
    pub avatar_url: Option<String>,
    pub spur_account: String,
    pub is_admin: bool,
    /// Per-user GPU quota; `None` is unlimited.
    pub max_gpus: Option<i32>,
    pub created_at: Timestamp,
    pub last_login_at: Option<Timestamp>,
}

/// What is shown of a user: no credentials, no linked accounts, no quota.
pub struct UserProfile {
    pub id: u128,
    pub email: String,
    pub username: String,
    pub display_name: Option<String>,
    pub avatar_url: Option<String>,
    pub is_admin: bool,
    pub created_at: Timestamp,
}

/// A public SSH key of a user.
pub struct SshKey {
    pub id: u128,
    pub user_id: u128,
    pub name: String,
    pub public_key: String,
    pub fingerprint: String,
    pub created_at: Timestamp,
}

impl From<User> for UserProfile {
    fn from(u: User) -> (p: Self) {
        UserProfile {
            id: u.id,
            email: u.email,
            username: u.username,
            display_name: u.display_name,
            avatar_url: u.avatar_url,
            is_admin: u.is_admin,
            created_at: u.created_at,
        }
    }
}

impl FromSpecImpl<User> for UserProfile {
    open spec fn obeys_from_spec() -> bool {
        true
    }

    /// The profile of a user: its id, email, username, display name,
    /// avatar, admin flag and creation time, as they are.
    open spec fn from_spec(u: User) -> UserProfile {
        UserProfile {
            id: u.id,
            email: u.email,
            username: u.username,
            display_name: u.display_name,
            avatar_url: u.avatar_url,
            is_admin: u.is_admin,
            created_at: u.created_at,
        }
    }
}

} // verus!
