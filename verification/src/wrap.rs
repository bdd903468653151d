//! Authenticated and signed wrappers around descriptors: a value is never
//! exposed to the rest of the broker until its tag or signature has been
//! checked. Tags are symmetric (the sender holds a shared operator secret);
//! signatures are asymmetric and bound to a domain-separation tag, so one
//! valid for one purpose cannot be replayed for another.
use vstd::prelude::*;

use crate::codec::{
    dom_msg, enc_bridge_desc, enc_exit_desc, enc_signed_exit, bytes_eq, encode_bridge_desc,
    encode_dom_msg, encode_signed_exit, push_exit_desc,
};
use crate::outside::{
    blake3_keyed, blake3_keyed_of, ed25519_sign, ed25519_sign_of, ed25519_verify,
    ed25519_verifies, ed25519_verifying_key, ed25519_vk_of,
};
use crate::types::{BridgeDescriptor, ExitDescriptor, RegisterError};

verus! {

/// Domain-separation tag for exit-descriptor self-signatures and the signed
/// exit catalog (the bytes spell "exitdesc").
pub const DOMAIN_EXIT_DESCRIPTOR: u64 = 0x6578_6974_6465_7363;

/// An exit descriptor self-signed by the exit's own identity key.
#[derive(Clone, Debug)]
pub struct SignedExit {
    /// The exit's 32-byte ed25519 identity key.
    pub pubkey: Vec<u8>,
    pub desc: ExitDescriptor,
    /// 64-byte signature over the domain-tagged descriptor encoding.
    pub sig: Vec<u8>,
}

/// A self-signed exit descriptor under a symmetric authentication tag.
#[derive(Clone, Debug)]
pub struct MacExit {
    pub inner: SignedExit,
    /// 32-byte keyed digest of the inner wrapper's encoding.
    pub tag: Vec<u8>,
}

/// A bridge descriptor under a symmetric authentication tag. Bridges carry no
/// signing identity of their own: the tag is their only authentication.
#[derive(Clone, Debug)]
pub struct MacBridge {
    pub inner: BridgeDescriptor,
    /// 32-byte keyed digest of the descriptor's encoding.
    pub tag: Vec<u8>,
}

/// The tag a sender holding the secret puts on a self-signed exit wrapper.
pub open spec fn mac_exit_tag(key: Seq<u8>, s: SignedExit) -> Seq<u8> {
    blake3_keyed_of(key, enc_signed_exit(s.pubkey@, s.desc, s.sig@))
}

/// The tag a sender holding the secret puts on a bridge descriptor.
pub open spec fn mac_bridge_tag(key: Seq<u8>, d: BridgeDescriptor) -> Seq<u8> {
    blake3_keyed_of(key, enc_bridge_desc(d))
}

/// The message an exit identity signs: its descriptor under the domain tag.
pub open spec fn signed_exit_msg(d: ExitDescriptor) -> Seq<u8> {
    dom_msg(DOMAIN_EXIT_DESCRIPTOR, enc_exit_desc(d))
}

/// Whether a self-signed exit wrapper's signature verifies: the key and
/// signature have their nominal lengths and the signature checks out over the
/// domain-tagged descriptor.
pub open spec fn signed_exit_ok(s: SignedExit) -> bool {
    s.pubkey@.len() == 32 && s.sig@.len() == 64 && ed25519_verifies(
        s.pubkey@,
        signed_exit_msg(s.desc),
        s.sig@,
    )
}

impl SignedExit {
    /// Operator side: self-signs a descriptor with the exit's identity key.
    pub fn new(sk: &Vec<u8>, desc: ExitDescriptor) -> (r: SignedExit)
        requires
            sk@.len() == 32,
        ensures
            r.pubkey@ == ed25519_vk_of(sk@),
            r.desc == desc,
            r.sig@ == ed25519_sign_of(sk@, signed_exit_msg(desc)),
            signed_exit_ok(r),
    {
        let mut body: Vec<u8> = Vec::new();
        push_exit_desc(&mut body, &desc);
        let msg = encode_dom_msg(DOMAIN_EXIT_DESCRIPTOR, &body);
        let sig = ed25519_sign(sk, &msg);
        let pubkey = ed25519_verifying_key(sk);
        SignedExit { pubkey, desc, sig }
    }

    /// Broker side: whether the self-signature verifies against the embedded
    /// identity key under the domain tag, leaving the wrapper in place.
    pub fn check(&self) -> (r: bool)
        ensures
            r == signed_exit_ok(*self),
    {
        if self.pubkey.len() != 32 || self.sig.len() != 64 {
            return false;
        }
        let mut body: Vec<u8> = Vec::new();
        push_exit_desc(&mut body, &self.desc);
        let msg = encode_dom_msg(DOMAIN_EXIT_DESCRIPTOR, &body);
        ed25519_verify(&self.pubkey, &msg, &self.sig)
    }

    /// Broker side: unwraps the descriptor only if the self-signature
    /// verifies against the embedded identity key under the domain tag.
    pub fn verify(self) -> (r: Result<ExitDescriptor, RegisterError>)
        ensures
            r is Ok <==> signed_exit_ok(self),
            r is Ok ==> r->Ok_0 == self.desc,
            r is Err ==> r == Err::<ExitDescriptor, RegisterError>(RegisterError::BadSignature),
    {
        if self.pubkey.len() != 32 || self.sig.len() != 64 {
            return Err(RegisterError::BadSignature);
        }
        let mut body: Vec<u8> = Vec::new();
        push_exit_desc(&mut body, &self.desc);
        let msg = encode_dom_msg(DOMAIN_EXIT_DESCRIPTOR, &body);
        if ed25519_verify(&self.pubkey, &msg, &self.sig) {
            Ok(self.desc)
        } else {
            Err(RegisterError::BadSignature)
        }
    }
}

impl MacExit {
    /// Operator side: tags a self-signed exit wrapper with the shared secret.
    pub fn new(inner: SignedExit, key: &Vec<u8>) -> (r: MacExit)
        requires
            key@.len() == 32,
        ensures
            r.inner == inner,
            r.tag@ == mac_exit_tag(key@, inner),
    {
        let body = encode_signed_exit(&inner.pubkey, &inner.desc, &inner.sig);
        let tag = blake3_keyed(key, &body);
        MacExit { inner, tag }
    }

    /// Broker side: unwraps the inner value only if the tag matches the
    /// shared secret; a mismatch means the sender does not hold it.
    pub fn verify(self, key: &Vec<u8>) -> (r: Result<SignedExit, RegisterError>)
        requires
            key@.len() == 32,
        ensures
            r is Ok <==> self.tag@ == mac_exit_tag(key@, self.inner),
            r is Ok ==> r->Ok_0 == self.inner,
            r is Err ==> r == Err::<SignedExit, RegisterError>(RegisterError::BadMac),
    {
        let body = encode_signed_exit(&self.inner.pubkey, &self.inner.desc, &self.inner.sig);
        let expect = blake3_keyed(key, &body);
        if bytes_eq(&expect, &self.tag) {
            Ok(self.inner)
        } else {
            Err(RegisterError::BadMac)
        }
    }
}

impl MacBridge {
    /// Operator side: tags a bridge descriptor with the shared secret.
    pub fn new(inner: BridgeDescriptor, key: &Vec<u8>) -> (r: MacBridge)
        requires
            key@.len() == 32,
        ensures
            r.inner == inner,
            r.tag@ == mac_bridge_tag(key@, inner),
    {
        let body = encode_bridge_desc(&inner);
        let tag = blake3_keyed(key, &body);
        MacBridge { inner, tag }
    }

    /// Broker side: unwraps the descriptor only if the tag matches the
    /// shared secret.
    pub fn verify(self, key: &Vec<u8>) -> (r: Result<BridgeDescriptor, RegisterError>)
        requires
            key@.len() == 32,
        ensures
            r is Ok <==> self.tag@ == mac_bridge_tag(key@, self.inner),
            r is Ok ==> r->Ok_0 == self.inner,
            r is Err ==> r == Err::<BridgeDescriptor, RegisterError>(RegisterError::BadMac),
    {
        let body = encode_bridge_desc(&self.inner);
        let expect = blake3_keyed(key, &body);
        if bytes_eq(&expect, &self.tag) {
            Ok(self.inner)
        } else {
            Err(RegisterError::BadMac)
        }
    }
}

} // verus!
