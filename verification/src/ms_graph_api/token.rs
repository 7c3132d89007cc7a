//! The service token: a credential obtained without user interaction.
//!
//! Time is a count of seconds on a clock that never runs backwards; the
//! caller reads the clock and passes the reading in.

use vstd::prelude::*;

verus! {

/// A token and the time from which it is no longer used. A token is given
/// up at half its granted lifetime, so that a call in flight never carries
/// one that runs out under way.
pub struct ApplicationToken {
    pub value: String,
    /// Kept in a wider type than the clock, so that no reading of the clock
    /// and no lifetime lead out of it.
    pub expires_at: u128,
}

/// Why a token cannot be used.
#[derive(Clone, Copy, Debug, PartialEq, Eq, Structural)]
pub enum TokenError {
    /// No token has been obtained yet.
    Empty,
    /// The token is past its time.
    Expired,
}

/// The time at which a token granted at `now` for `lifetime` seconds is
/// given up: half the lifetime later.
pub open spec fn expiry_after_renewal(now: int, lifetime: int) -> int {
    now + lifetime / 2
}

/// Whether a token with the given value and expiry can be used at `now`.
pub open spec fn token_status(value: Seq<char>, expires_at: int, now: int) -> Result<(), TokenError> {
    if value.len() == 0 {
        Err(TokenError::Empty)
    } else if now < expires_at {
        Ok(())
    } else {
        Err(TokenError::Expired)
    }
}

impl ApplicationToken {
    /// Whether the token can be used at `now`.
    pub open spec fn status(self, now: int) -> Result<(), TokenError> {
        token_status(self.value@, self.expires_at as int, now)
    }

    /// No token yet.
    pub fn new() -> (r: Self)
        ensures
            r.value@.len() == 0,
            r.expires_at == 0,
    {
        ApplicationToken { value: String::new(), expires_at: 0 }
    }

    /// The token, if there is one and `now` is before its expiry.
    pub fn get(&self, now: u64) -> (r: Result<String, TokenError>)
        ensures
            match r {
                Ok(value) => self.status(now as int) is Ok && value == self.value,
                Err(e) => self.status(now as int) == Err::<(), TokenError>(e),
            },
    {
        if self.value.as_str().is_empty() {
            return Err(TokenError::Empty);
        }
        if (now as u128) < self.expires_at {
            Ok(self.value.clone())
        } else {
            Err(TokenError::Expired)
        }
    }

    /// Takes a token that was granted at `now` for `expires_in` seconds, and
    /// hands it back for immediate use.
    pub fn renew(&mut self, access_token: String, expires_in: u64, now: u64) -> (r: String)
        ensures
            final(self).value == access_token,
            final(self).expires_at == expiry_after_renewal(now as int, expires_in as int),
            r == access_token,
    {
        self.expires_at = now as u128 + (expires_in / 2) as u128;
        self.value = access_token.clone();
        access_token
    }
}

/// A token is good for the first half of its lifetime and for no longer: a
/// non-empty token granted at `now` for `lifetime` seconds can be used at
/// every time from `now` up to, but not including, `now + lifetime / 2`, and
/// is reported as expired at every time from then on.
pub proof fn lemma_token_expires_at_half_life(value: Seq<char>, now: int, lifetime: int, at: int)
    requires
        value.len() > 0,
        0 <= lifetime,
        now <= at,
    ensures
        at < now + lifetime / 2 ==> token_status(value, expiry_after_renewal(now, lifetime), at)
            is Ok,
        at >= now + lifetime / 2 ==> token_status(value, expiry_after_renewal(now, lifetime), at)
            == Err::<(), TokenError>(TokenError::Expired),
        lifetime >= 2 ==> token_status(value, expiry_after_renewal(now, lifetime), now) is Ok,
{
}

} // verus!
