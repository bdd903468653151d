//! Bearer-token issuance: maps a credential to a stable user identifier,
//! rate-limits minting per user, and validates presented tokens. The bearer
//! token is an opaque byte string bound to a user identifier; it is distinct
//! from the anonymous blind-signature credential and never travels on the
//! network path itself.
use vstd::prelude::*;

use crate::codec::bytes_eq;
use crate::codec::encode_u128;
use crate::outside::random_u128;
use crate::types::{AuthError, Credential};

verus! {

/// How many bearer tokens one user may mint inside one window.
pub const MINT_LIMIT: u32 = 8;

/// Length of the limiter's window, in seconds.
pub const MINT_WINDOW_SECS: u64 = 3600;

/// How long a minted bearer token stays valid, in seconds.
pub const BEARER_TTL_SECS: u64 = 86400;

/// The stable user identifier a credential variant maps to.
pub open spec fn spec_user_id(c: Credential) -> u64 {
    match c {
        Credential::TestDummy => 42,
    }
}

/// Maps a credential variant to its stable user identifier.
pub fn credential_user_id(c: Credential) -> (r: u64)
    ensures
        r == spec_user_id(c),
{
    match c {
        Credential::TestDummy => 42,
    }
}

/// One minted bearer token, bound to its user and its expiry.
#[derive(Clone, Debug)]
pub struct TokenRecord {
    pub token: Vec<u8>,
    pub user_id: u64,
    pub expires_at: u64,
}

/// The limiter's per-user counter for the current window.
#[derive(Clone, Copy, PartialEq, Eq, Structural, Debug)]
pub struct RateSlot {
    pub user_id: u64,
    pub window_start: u64,
    pub count: u32,
}

/// The bearer-token validation store with its rate limiter.
#[derive(Debug)]
pub struct TokenStore {
    pub tokens: Vec<TokenRecord>,
    pub rates: Vec<RateSlot>,
}

impl TokenStore {
    /// At most one limiter slot per user.
    pub open spec fn wf(self) -> bool {
        forall|i: int, j: int|
            0 <= i < j < self.rates@.len() ==> self.rates@[i].user_id != self.rates@[j].user_id
    }

    /// Whether a presented byte string is a bearer token that is currently
    /// valid: minted here, not yet expired.
    pub open spec fn token_valid(self, token: Seq<u8>, now: u64) -> bool {
        exists|i: int|
            0 <= i < self.tokens@.len() && self.tokens@[i].token@ == token && now
                < self.tokens@[i].expires_at
    }

    /// Whether a user holds a limiter slot.
    pub open spec fn has_slot(self, user_id: u64) -> bool {
        exists|i: int| 0 <= i < self.rates@.len() && self.rates@[i].user_id == user_id
    }

    /// The limiter slot recorded for a user, if any.
    pub open spec fn slot_for(self, user_id: u64) -> Option<RateSlot> {
        if self.has_slot(user_id) {
            Some(
                self.rates@[choose|i: int|
                    0 <= i < self.rates@.len() && self.rates@[i].user_id == user_id],
            )
        } else {
            None
        }
    }

    /// Whether minting for a user is refused at a given time: the user's
    /// window is still open and its counter has reached the limit.
    pub open spec fn mint_limited(self, user_id: u64, now: u64) -> bool {
        match self.slot_for(user_id) {
            Some(slot) => now < slot.window_start + MINT_WINDOW_SECS && slot.count >= MINT_LIMIT,
            None => false,
        }
    }

    pub fn new() -> (r: TokenStore)
        ensures
            r.wf(),
            r.tokens@.len() == 0,
            r.rates@.len() == 0,
    {
        TokenStore { tokens: Vec::new(), rates: Vec::new() }
    }

    /// Checks a presented token: valid only if it was minted here and has not
    /// expired.
    pub fn validate(&self, token: &Vec<u8>, now: u64) -> (r: bool)
        ensures
            r == self.token_valid(token@, now),
    {
        let mut i: usize = 0;
        while i < self.tokens.len()
            invariant
                i <= self.tokens@.len(),
                forall|k: int|
                    0 <= k < i ==> !(self.tokens@[k].token@ == token@ && now
                        < self.tokens@[k].expires_at),
            decreases self.tokens@.len() - i,
        {
            if bytes_eq(&self.tokens[i].token, token) && now < self.tokens[i].expires_at {
                return true;
            }
            i = i + 1;
        }
        false
    }

    /// Mints a fresh bearer token for a user, or refuses with `RateLimited`
    /// when the user's counter for the open window has reached the limit.
    /// On success the fresh token is recorded, bound to the user, and valid
    /// now; every previously minted token is kept.
    pub fn mint(&mut self, user_id: u64, now: u64) -> (r: Result<Vec<u8>, AuthError>)
        requires
            old(self).wf(),
            now < u64::MAX,
        ensures
            final(self).wf(),
            r is Err <==> old(self).mint_limited(user_id, now),
            r is Err ==> r == Err::<Vec<u8>, AuthError>(AuthError::RateLimited) && *final(self)
                == *old(self),
            r is Ok ==> final(self).tokens@.len() == old(self).tokens@.len() + 1,
            r is Ok ==> final(self).tokens@.last().token@ == r->Ok_0@,
            r is Ok ==> final(self).tokens@.last().user_id == user_id,
            r is Ok ==> final(self).tokens@.take(old(self).tokens@.len() as int) == old(self).tokens@,
            r is Ok ==> final(self).token_valid(r->Ok_0@, now),
    {
        let mut i: usize = 0;
        let mut found: Option<usize> = None;
        while i < self.rates.len()
            invariant
                i <= self.rates@.len(),
                match found {
                    Some(j) => j < i && self.rates@[j as int].user_id == user_id,
                    None => forall|k: int| 0 <= k < i ==> self.rates@[k].user_id != user_id,
                },
            decreases self.rates@.len() - i,
        {
            if found.is_none() && self.rates[i].user_id == user_id {
                found = Some(i);
            }
            i = i + 1;
        }
        match found {
            None => {
                assert(!self.has_slot(user_id));
                assert(!old(self).mint_limited(user_id, now));
                let ghost before = self.rates@;
                self.rates.push(RateSlot { user_id, window_start: now, count: 1 });
                assert forall|a: int, b: int|
                    0 <= a < b < self.rates@.len() implies self.rates@[a].user_id
                    != self.rates@[b].user_id by {
                    if b == before.len() {
                        assert(self.rates@[a].user_id != user_id);
                    }
                }
                self.mint_record(user_id, now)
            },
            Some(j) => {
                proof {
                    let w = choose|k: int|
                        0 <= k < self.rates@.len() && self.rates@[k].user_id == user_id;
                    if w != j as int {
                        assert(false);
                    }
                    assert(old(self).slot_for(user_id) == Some(self.rates@[j as int]));
                }
                let slot = self.rates[j];
                if now >= MINT_WINDOW_SECS && slot.window_start <= now - MINT_WINDOW_SECS {
                    assert(!old(self).mint_limited(user_id, now));
                    self.rates[j] = RateSlot { user_id, window_start: now, count: 1 };
                    self.mint_record(user_id, now)
                } else if slot.count < MINT_LIMIT {
                    assert(!old(self).mint_limited(user_id, now));
                    self.rates[j] = RateSlot {
                        user_id,
                        window_start: slot.window_start,
                        count: slot.count + 1,
                    };
                    self.mint_record(user_id, now)
                } else {
                    assert(old(self).mint_limited(user_id, now));
                    Err(AuthError::RateLimited)
                }
            },
        }
    }

    /// Draws a fresh token value and records it bound to the user.
    fn mint_record(&mut self, user_id: u64, now: u64) -> (r: Result<Vec<u8>, AuthError>)
        requires
            old(self).wf(),
            now < u64::MAX,
        ensures
            final(self).wf(),
            final(self).rates@ == old(self).rates@,
            r is Ok,
            final(self).tokens@.len() == old(self).tokens@.len() + 1,
            final(self).tokens@.last().token@ == r->Ok_0@,
            final(self).tokens@.last().user_id == user_id,
            final(self).tokens@.take(old(self).tokens@.len() as int) == old(self).tokens@,
            final(self).token_valid(r->Ok_0@, now),
    {
        let value = random_u128();
        let token = encode_u128(value);
        let copy = encode_u128(value);
        let expires_at = if now >= u64::MAX - BEARER_TTL_SECS {
            u64::MAX
        } else {
            now + BEARER_TTL_SECS
        };
        self.tokens.push(TokenRecord { token, user_id, expires_at });
        assert(self.tokens@.take(old(self).tokens@.len() as int) =~= old(self).tokens@);
        let ghost n = self.tokens@.len() - 1;
        assert(self.tokens@[n].token@ == copy@ && now < self.tokens@[n].expires_at);
        Ok(copy)
    }
}

} // verus!
