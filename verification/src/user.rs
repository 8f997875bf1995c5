//! Struct construction patterns: a plain constructor function, an associated
//! `new`, field-init shorthand, and struct-update syntax.
use vstd::prelude::*;

verus! {

/// An account record; new users start active with one sign-in.
pub struct User {
    pub email: String,
    pub username: String,
    pub active: bool,
    pub sign_in_count: u64,
}

/// A user with an extra permission level; kept distinct from `User` so the
/// two cannot be mixed up.
pub struct SuperUser {
    pub email: String,
    pub username: String,
    pub active: bool,
    pub sign_in_count: u64,
    pub permission_level: u16,
}

/// A free-function constructor: a fresh, active user with one sign-in.
pub fn build_user(email: String, username: String) -> (user: User)
    ensures
        user.email == email,
        user.username == username,
        user.active,
        user.sign_in_count == 1,
{
    User { email, username, active: true, sign_in_count: 1 }
}

impl User {
    /// The idiomatic constructor; builds the same value as `build_user`.
    pub fn new(email: String, username: String) -> (user: Self)
        ensures
            user.email == email,
            user.username == username,
            user.active,
            user.sign_in_count == 1,
    {
        User { email, username, active: true, sign_in_count: 1 }
    }
}

/// The same constructor written without field-init shorthand.
pub fn no_shorthand(email: String, username: String) -> (user: User)
    ensures
        user.email == email,
        user.username == username,
        user.active,
        user.sign_in_count == 1,
{
    User { email: email, username: username, active: true, sign_in_count: 1 }
}

/// And with the shorthand: the two build identical values.
pub fn shorthand(email: String, username: String) -> (user: User)
    ensures
        user.email == email,
        user.username == username,
        user.active,
        user.sign_in_count == 1,
{
    User { email, username, active: true, sign_in_count: 1 }
}

/// Struct-update syntax: every field is carried over except the count,
/// which grows by one.
pub fn increment_sign_in_count(user: User) -> (r: User)
    requires
        user.sign_in_count < u64::MAX,
    ensures
        r.email == user.email,
        r.username == user.username,
        r.active == user.active,
        r.sign_in_count == user.sign_in_count + 1,
{
    User { sign_in_count: user.sign_in_count + 1, ..user }
}

} // verus!
