//! Per-account-level blind-signing key material, indexed by time epoch.
//!
//! The scheme is linear in the blinding mask: signing commutes with masking,
//! so a signature produced over a blinded token, once unblinded, verifies
//! against the bare token and the (level, epoch) subkey, while the signer
//! never sees the bare token. The two account levels use disjoint master
//! material, so a token never verifies under both.
use vstd::prelude::*;

use crate::types::AccountLevel;

verus! {

/// A signature over a blinded token, bound to the epoch it was signed for.
#[derive(Clone, Copy, PartialEq, Eq, Structural, Debug)]
pub struct BlindedSignature {
    pub epoch: u16,
    pub value: u128,
}

/// A signature over a bare token, obtained by unblinding a
/// [`BlindedSignature`] with the mask the token was blinded with.
#[derive(Clone, Copy, PartialEq, Eq, Structural, Debug)]
pub struct UnblindedSignature {
    pub epoch: u16,
    pub value: u128,
}

/// One signing-key sequence per account level. Read-only after startup.
#[derive(Clone, Copy, Debug)]
pub struct Keyring {
    pub free_master: u128,
    pub plus_master: u128,
}

impl Keyring {
    /// The key families of the two levels must be disjoint.
    pub open spec fn wf(self) -> bool {
        self.free_master != self.plus_master
    }

    /// The master key of one level.
    pub open spec fn master_of(self, level: AccountLevel) -> u128 {
        match level {
            AccountLevel::Free => self.free_master,
            AccountLevel::Plus => self.plus_master,
        }
    }

    /// The level-wide verifying key clients hold.
    pub open spec fn level_vk(self, level: AccountLevel) -> u128 {
        self.master_of(level)
    }

    /// The (level, epoch) subkey: deterministic, side-effect-free.
    pub open spec fn subkey_of(self, level: AccountLevel, epoch: u16) -> u128 {
        self.master_of(level) ^ (epoch as u128)
    }

    /// Derives the (level, epoch) subkey.
    pub fn subkey(&self, level: AccountLevel, epoch: u16) -> (r: u128)
        ensures
            r == self.subkey_of(level, epoch),
    {
        match level {
            AccountLevel::Free => self.free_master ^ (epoch as u128),
            AccountLevel::Plus => self.plus_master ^ (epoch as u128),
        }
    }

    /// Signs a blinded token under the (level, epoch) subkey.
    pub fn blind_sign(&self, level: AccountLevel, epoch: u16, blinded: u128) -> (r:
        BlindedSignature)
        ensures
            r == self.blind_sign_of(level, epoch, blinded),
    {
        BlindedSignature { epoch, value: blinded ^ self.subkey(level, epoch) }
    }

    /// What [`Keyring::blind_sign`] returns.
    pub open spec fn blind_sign_of(self, level: AccountLevel, epoch: u16, blinded: u128)
        -> BlindedSignature {
        BlindedSignature { epoch, value: blinded ^ self.subkey_of(level, epoch) }
    }

    /// Whether an unblinded signature verifies a bare token under one level's
    /// verifying key, at the epoch the signature names.
    pub open spec fn blind_verifies(self, level: AccountLevel, token: u128, sig:
        UnblindedSignature) -> bool {
        sig.value == token ^ self.subkey_of(level, sig.epoch)
    }

    /// Client-side verification of an unblinded (token, signature) pair.
    pub fn blind_verify(&self, level: AccountLevel, token: u128, sig: UnblindedSignature) -> (r:
        bool)
        ensures
            r == self.blind_verifies(level, token, sig),
    {
        sig.value == token ^ self.subkey(level, sig.epoch)
    }
}

/// Client side: hides a bare token under a fresh mask before presenting it
/// for signing.
pub fn blind(token: u128, mask: u128) -> (r: u128)
    ensures
        r == token ^ mask,
{
    token ^ mask
}

/// Client side: strips the blinding mask off a signature over the blinded
/// token, leaving a signature over the bare token.
pub fn unblind(sig: BlindedSignature, mask: u128) -> (r: UnblindedSignature)
    ensures
        r == (UnblindedSignature { epoch: sig.epoch, value: sig.value ^ mask }),
{
    UnblindedSignature { epoch: sig.epoch, value: sig.value ^ mask }
}

/// A signature issued over a blinded token, once unblinded with the same
/// mask, verifies against the bare token under the issuing level and epoch.
pub proof fn lemma_blind_sign_round_trip(kr: Keyring, level: AccountLevel, epoch: u16, token:
    u128, mask: u128)
    ensures
        kr.blind_verifies(
            level,
            token,
            UnblindedSignature {
                epoch,
                value: kr.blind_sign_of(level, epoch, token ^ mask).value ^ mask,
            },
        ),
{
    let sub = kr.subkey_of(level, epoch);
    assert(((token ^ mask) ^ sub) ^ mask == token ^ sub) by (bit_vector);
}

/// A (token, signature) pair never verifies under both account levels: the
/// key material of the two families is disjoint by construction.
pub proof fn lemma_levels_disjoint(kr: Keyring, token: u128, sig: UnblindedSignature)
    requires
        kr.wf(),
    ensures
        !(kr.blind_verifies(AccountLevel::Free, token, sig) && kr.blind_verifies(
            AccountLevel::Plus,
            token,
            sig,
        )),
{
    let e = sig.epoch;
    let f = kr.free_master;
    let p = kr.plus_master;
    assert((token ^ (f ^ (e as u128))) == (token ^ (p ^ (e as u128))) ==> f == p) by (bit_vector);
}

} // verus!
