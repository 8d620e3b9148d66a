use vstd::prelude::*;
use vstd::string::StringSliceAdditionalSpecFns;

verus! {

/// Longest username accepted at registration, in bytes.
pub const MAX_USERNAME_LEN: usize = 32;

/// Whether a username is too long to register: over `MAX_USERNAME_LEN` bytes.
pub fn username_too_long(username: &str) -> (r: bool)
    ensures
        r == (username.spec_bytes().len() > MAX_USERNAME_LEN),
{
    username.as_bytes().len() > MAX_USERNAME_LEN
}

/// What a bearer token says of its holder.
pub struct Claims {
    pub uid: String,
    pub username: String,
    /// Issue time, in seconds since the Unix epoch.
    pub iat: u64,
    /// Expiry time, in seconds since the Unix epoch.
    pub exp: u64,
}

impl Claims {
    /// Whether the token has expired at `now` (seconds since the Unix epoch).
    pub fn is_expired(&self, now: u64) -> (r: bool)
        ensures
            r == (self.exp < now),
    {
        self.exp < now
    }
}

/// An authenticated solver, known by the claims of its token.
pub struct Auth(pub Claims);

} // verus!
