//! What a token says of its bearer.

use vstd::prelude::*;

verus! {

/// The pair of tokens that a login hands out.
#[derive(Debug, Clone)]
pub struct Passport {
    pub access_token: String,
    pub refresh_token: String,
}

/// Who the bearer is.
#[derive(Clone, Copy, Debug, PartialEq, Eq, Structural)]
pub enum Roles {
    Adventurer,
    GuildCommander,
}

/// The claims of a token: the bearer's id, the bearer's role, and the times,
/// in seconds since the Unix epoch, at which the token ends and was made.
#[derive(Debug)]
pub struct Claims {
    pub sub: String,
    pub role: Roles,
    pub exp: usize,
    pub iat: usize,
}

impl Clone for Claims {
    fn clone(&self) -> (copy: Claims)
        ensures
            copy == *self,
    {
        Claims { sub: self.sub.clone(), role: self.role, exp: self.exp, iat: self.iat }
    }
}

/// The seconds in a day.
pub const SECONDS_PER_DAY: usize = 86400;

/// The days for which an access token holds.
pub const ACCESS_TOKEN_DAYS: usize = 1;

/// The days for which a refresh token holds.
pub const REFRESH_TOKEN_DAYS: usize = 7;

impl Claims {
    /// The claims of a token made at `now` for the bearer, to hold for `days`.
    pub open spec fn issued(sub: String, role: Roles, now: usize, days: usize) -> Claims {
        Claims { sub, role, exp: (now + days * SECONDS_PER_DAY) as usize, iat: now }
    }

    /// The claims of the access token that a login at `now` hands out.
    pub fn access(sub: &String, role: Roles, now: usize) -> (claims: Claims)
        requires
            now + ACCESS_TOKEN_DAYS * SECONDS_PER_DAY <= usize::MAX,
        ensures
            claims == Claims::issued(*sub, role, now, ACCESS_TOKEN_DAYS),
    {
        Claims { sub: sub.clone(), role, exp: now + ACCESS_TOKEN_DAYS * SECONDS_PER_DAY, iat: now }
    }

    /// The claims of the refresh token that a login at `now` hands out.
    pub fn refresh(sub: &String, role: Roles, now: usize) -> (claims: Claims)
        requires
            now + REFRESH_TOKEN_DAYS * SECONDS_PER_DAY <= usize::MAX,
        ensures
            claims == Claims::issued(*sub, role, now, REFRESH_TOKEN_DAYS),
    {
        Claims { sub: sub.clone(), role, exp: now + REFRESH_TOKEN_DAYS * SECONDS_PER_DAY, iat: now }
    }

    /// The claims of the refresh token that takes this one's place at `now`:
    /// the same bearer, in the given role, and the same end.
    pub fn renewed(&self, role: Roles, now: usize) -> (claims: Claims)
        ensures
            claims == (Claims { sub: self.sub, role, exp: self.exp, iat: now }),
    {
        Claims { sub: self.sub.clone(), role, exp: self.exp, iat: now }
    }
}

} // verus!
