//! The broker facade: one context object, built once at startup, composing
//! the keyring, the token issuer, the descriptor registry, the signed-catalog
//! cache and route assembly into the RPC-facing operation set. Beyond
//! argument marshaling and error mapping, every rule lives in the components.
use vstd::prelude::*;

use crate::catalog::{
    stamp_fresh, stamp_of, stamp_step, CatalogCache, SignedCatalog, CATALOG_TTL_SECS,
};
use crate::codec::{dom_msg, enc_catalog, encode_catalog, encode_dom_msg, encode_u128, u128_le};
use crate::keyring::{BlindedSignature, Keyring, UnblindedSignature};
use crate::outside::{
    blake3_hash, blake3_of, country_code_known, ed25519_sign, ed25519_sign_of,
    ed25519_verifies, ed25519_verifying_key, ed25519_vk_of, iso_alpha2_caseless,
};
use crate::registry::{same_bridge, BridgeStore, ExitStore};
use crate::tokens::{credential_user_id, spec_user_id, TokenStore};
use crate::types::{
    AccountLevel, AuthError, BridgeDescriptor, CityEntry, Credential, ExitRow, RegisterError,
    RouteError,
};
use crate::wrap::{
    mac_bridge_tag, mac_exit_tag, signed_exit_ok, MacBridge, MacExit, SignedExit,
    DOMAIN_EXIT_DESCRIPTOR,
};

verus! {

/// What the bearer-validation store said about a presented token. A real
/// deployment backs validation with persistent storage whose lookup can
/// fault; the fault is deliberately masked as rate-limiting so infrastructure
/// state never leaks to untrusted callers.
#[derive(Clone, Copy, PartialEq, Eq, Structural, Debug)]
pub enum TokenCheck {
    Valid,
    Invalid,
    StoreFault,
}

/// Exchanges a validated bearer token for a blind signature: valid tokens
/// are signed, invalid ones are forbidden, and a store fault degrades to
/// rate-limiting, never to an internal error.
pub fn exchange_for_blind_signature(
    check: TokenCheck,
    keyring: &Keyring,
    level: AccountLevel,
    epoch: u16,
    blind_token: u128,
) -> (r: Result<BlindedSignature, AuthError>)
    ensures
        check == TokenCheck::Valid ==> r == Ok::<BlindedSignature, AuthError>(
            keyring.blind_sign_of(level, epoch, blind_token),
        ),
        check == TokenCheck::Invalid ==> r == Err::<BlindedSignature, AuthError>(
            AuthError::Forbidden,
        ),
        check == TokenCheck::StoreFault ==> r == Err::<BlindedSignature, AuthError>(
            AuthError::RateLimited,
        ),
{
    match check {
        TokenCheck::Valid => Ok(keyring.blind_sign(level, epoch, blind_token)),
        TokenCheck::Invalid => Err(AuthError::Forbidden),
        TokenCheck::StoreFault => Err(AuthError::RateLimited),
    }
}

/// For every currently valid bearer token, the blind signature the exchange
/// returns for a blinded request, once unblinded with the request's mask,
/// verifies against the issuing level's verifying key and the bare token:
/// the signer never sees the bare token, yet the client ends up with a
/// credential the level's key accepts.
pub proof fn lemma_exchange_yields_verifiable_credential(
    b: BrokerImpl,
    bearer: Seq<u8>,
    now: u64,
    level: AccountLevel,
    epoch: u16,
    token: u128,
    mask: u128,
)
    requires
        b.tokens.token_valid(bearer, now),
    ensures
        b.keyring.blind_verifies(
            level,
            token,
            UnblindedSignature {
                epoch,
                value: b.keyring.blind_sign_of(level, epoch, token ^ mask).value ^ mask,
            },
        ),
{
    crate::keyring::lemma_blind_sign_round_trip(b.keyring, level, epoch, token, mask);
}

/// The broker context: one object, built once at startup and passed by
/// handle; nothing lives in ambient statics.
#[derive(Debug)]
pub struct BrokerImpl {
    pub keyring: Keyring,
    /// The broker's 32-byte master signing key for the catalog.
    pub master_sk: Vec<u8>,
    /// Shared secret exit operators prove possession of.
    pub exit_token: Vec<u8>,
    /// Shared secret bridge operators prove possession of.
    pub bridge_token: Vec<u8>,
    pub exits: ExitStore,
    pub bridges: BridgeStore,
    pub tokens: TokenStore,
    pub cache: CatalogCache,
    /// Static country-to-city display table merged into every snapshot.
    pub city_names: Vec<CityEntry>,
}

impl BrokerImpl {
    /// A cached snapshot is always one the master key signed over the
    /// catalog domain tag.
    pub open spec fn cache_wf(self) -> bool {
        match self.cache.snapshot {
            Some(s) => s.pubkey@ == ed25519_vk_of(self.master_sk@) && s.sig@ == ed25519_sign_of(
                self.master_sk@,
                dom_msg(DOMAIN_EXIT_DESCRIPTOR, s.payload@),
            ) && ed25519_verifies(s.pubkey@, dom_msg(DOMAIN_EXIT_DESCRIPTOR, s.payload@), s.sig@),
            None => true,
        }
    }

    pub open spec fn wf(self) -> bool {
        self.keyring.wf() && self.master_sk@.len() == 32 && self.exits.wf() && self.bridges.wf()
            && self.tokens.wf() && self.cache_wf()
    }

    /// The symmetric key exit registrations are authenticated with: the hash
    /// of the shared exit token, never the raw token itself.
    pub open spec fn exit_mac_key(self) -> Seq<u8> {
        blake3_of(self.exit_token@)
    }

    /// The symmetric key bridge registrations are authenticated with.
    pub open spec fn bridge_mac_key(self) -> Seq<u8> {
        blake3_of(self.bridge_token@)
    }

    /// Whether an exit registration's outer tag matches the exit secret.
    pub open spec fn exit_mac_ok(self, m: MacExit) -> bool {
        m.tag@ == mac_exit_tag(self.exit_mac_key(), m.inner)
    }

    /// Whether a bridge registration's tag matches the bridge secret.
    pub open spec fn bridge_mac_ok(self, m: MacBridge) -> bool {
        m.tag@ == mac_bridge_tag(self.bridge_mac_key(), m.inner)
    }

    /// Whether a registered exit's country code is a known one.
    pub open spec fn exit_country_ok(m: MacExit) -> bool {
        iso_alpha2_caseless(m.inner.desc.country.a, m.inner.desc.country.b)
    }

    /// The row a fully authenticated exit registration persists.
    pub open spec fn exit_row_of(m: MacExit) -> ExitRow {
        ExitRow { pubkey: m.inner.pubkey, desc: m.inner.desc }
    }

    /// Builds the broker once at startup from its configuration: key
    /// material, the two registration secrets, and the static display table.
    pub fn new(
        keyring: Keyring,
        master_sk: Vec<u8>,
        exit_token: Vec<u8>,
        bridge_token: Vec<u8>,
        city_names: Vec<CityEntry>,
    ) -> (r: BrokerImpl)
        requires
            keyring.wf(),
            master_sk@.len() == 32,
        ensures
            r.wf(),
            r.keyring == keyring,
            r.master_sk == master_sk,
            r.exit_token == exit_token,
            r.bridge_token == bridge_token,
            r.city_names == city_names,
            r.exits.rows@.len() == 0,
            r.bridges.rows@.len() == 0,
            r.tokens.tokens@.len() == 0,
            r.cache.snapshot is None,
            r.cache.rebuilds == 0,
    {
        BrokerImpl {
            keyring,
            master_sk,
            exit_token,
            bridge_token,
            exits: ExitStore::new(),
            bridges: BridgeStore::new(),
            tokens: TokenStore::new(),
            cache: CatalogCache::new(),
            city_names,
        }
    }

    /// Serializes the (level, epoch) subkey verifying key for clients.
    /// Deterministic and side-effect-free.
    pub fn get_mizaru_subkey(&self, level: AccountLevel, epoch: u16) -> (r: Vec<u8>)
        ensures
            r@ == u128_le(self.keyring.subkey_of(level, epoch)),
    {
        encode_u128(self.keyring.subkey(level, epoch))
    }

    /// Issues a bearer token for a credential: the credential maps to its
    /// stable user identifier, whose limiter may refuse with `RateLimited`;
    /// the minted token is valid now and bound to that identifier.
    pub fn get_auth_token(&mut self, credential: Credential, now: u64) -> (r: Result<
        Vec<u8>,
        AuthError,
    >)
        requires
            old(self).wf(),
            now < u64::MAX,
        ensures
            final(self).wf(),
            r is Err <==> old(self).tokens.mint_limited(spec_user_id(credential), now),
            r is Err ==> r == Err::<Vec<u8>, AuthError>(AuthError::RateLimited) && *final(self)
                == *old(self),
            r is Ok ==> final(self).tokens.token_valid(r->Ok_0@, now),
            r is Ok ==> final(self).tokens.tokens@.len() == old(self).tokens.tokens@.len() + 1,
            r is Ok ==> final(self).tokens.tokens@.last().user_id == spec_user_id(credential),
            r is Ok ==> final(self).tokens.tokens@.last().token@ == r->Ok_0@,
            r is Ok ==> final(self).tokens.tokens@.take(old(self).tokens.tokens@.len() as int)
                == old(self).tokens.tokens@,
            final(self).keyring == old(self).keyring,
            final(self).master_sk == old(self).master_sk,
            final(self).exits == old(self).exits,
            final(self).bridges == old(self).bridges,
            final(self).cache == old(self).cache,
            final(self).city_names == old(self).city_names,
    {
        let user_id = credential_user_id(credential);
        self.tokens.mint(user_id, now)
    }

    /// Exchanges a bearer token for a blind signature over a blinded request:
    /// a currently valid token is answered with the (level, epoch) blind
    /// signature, anything else with `Forbidden`. The blinded request is
    /// neither inspected nor retained.
    pub fn get_connect_token(
        &self,
        auth_token: &Vec<u8>,
        level: AccountLevel,
        epoch: u16,
        blind_token: u128,
        now: u64,
    ) -> (r: Result<BlindedSignature, AuthError>)
        ensures
            r is Ok <==> self.tokens.token_valid(auth_token@, now),
            r is Ok ==> r->Ok_0 == self.keyring.blind_sign_of(level, epoch, blind_token),
            !self.tokens.token_valid(auth_token@, now) ==> r == Err::<
                BlindedSignature,
                AuthError,
            >(AuthError::Forbidden),
    {
        let check = if self.tokens.validate(auth_token, now) {
            TokenCheck::Valid
        } else {
            TokenCheck::Invalid
        };
        exchange_for_blind_signature(check, &self.keyring, level, epoch, blind_token)
    }

    /// Serves the signed catalog snapshot: inside the TTL the cached snapshot
    /// comes back unchanged and nothing is recomputed; otherwise exactly one
    /// rebuild reads the exits table, merges the display table, signs the
    /// encoding under the catalog domain tag, and caches the result.
    pub fn get_exits(&mut self, now: u64) -> (r: SignedCatalog)
        requires
            old(self).wf(),
        ensures
            final(self).wf(),
            stamp_of(final(self).cache) == stamp_step(stamp_of(old(self).cache), now),
            r.pubkey@ == ed25519_vk_of(old(self).master_sk@),
            r.sig@ == ed25519_sign_of(
                old(self).master_sk@,
                dom_msg(DOMAIN_EXIT_DESCRIPTOR, r.payload@),
            ),
            ed25519_verifies(r.pubkey@, dom_msg(DOMAIN_EXIT_DESCRIPTOR, r.payload@), r.sig@),
            stamp_fresh(stamp_of(old(self).cache), now) ==> *final(self) == *old(self) && (match old(self).cache.snapshot {
                Some(s) => r.payload@ == s.payload@,
                None => false,
            }),
            !stamp_fresh(stamp_of(old(self).cache), now) ==> r.payload@ == enc_catalog(
                old(self).exits.rows@,
                old(self).city_names@,
            ) && (match final(self).cache.snapshot {
                Some(s) => s.payload@ == r.payload@,
                None => false,
            }),
            final(self).keyring == old(self).keyring,
            final(self).master_sk == old(self).master_sk,
            final(self).exits == old(self).exits,
            final(self).bridges == old(self).bridges,
            final(self).tokens == old(self).tokens,
            final(self).city_names == old(self).city_names,
    {
        match &self.cache.snapshot {
            Some(s) => {
                if now >= self.cache.built_at && now - self.cache.built_at < CATALOG_TTL_SECS {
                    return s.duplicate();
                }
            },
            None => {},
        }
        assert(!stamp_fresh(stamp_of(old(self).cache), now));
        let payload = encode_catalog(&self.exits.rows, &self.city_names);
        let msg = encode_dom_msg(DOMAIN_EXIT_DESCRIPTOR, &payload);
        let sig = ed25519_sign(&self.master_sk, &msg);
        let pubkey = ed25519_verifying_key(&self.master_sk);
        let snapshot = SignedCatalog { pubkey, payload, sig };
        let served = snapshot.duplicate();
        self.cache.snapshot = Some(snapshot);
        self.cache.built_at = now;
        self.cache.rebuilds = if self.cache.rebuilds == u64::MAX {
            u64::MAX
        } else {
            self.cache.rebuilds + 1
        };
        served
    }

    /// Authenticates the caller's unblinded credential and fetches candidate
    /// bridges. The pair is checked against the Plus key family first and the
    /// Free one second (the families are disjoint, so at most one matches);
    /// if neither verifies, no bridge lookup happens. The selection key is
    /// derived deterministically from the token, so the same client keeps the
    /// same candidates. Handing each candidate to the path-construction
    /// collaborator, and folding the outcomes, is the caller's loop (see
    /// [`crate::routes::assemble_route_set`]).
    pub fn get_routes(&self, token: u128, sig: UnblindedSignature) -> (r: Result<
        (AccountLevel, Vec<BridgeDescriptor>),
        RouteError,
    >)
        ensures
            r is Ok <==> (self.keyring.blind_verifies(AccountLevel::Plus, token, sig)
                || self.keyring.blind_verifies(AccountLevel::Free, token, sig)),
            r is Err ==> r == Err::<(AccountLevel, Vec<BridgeDescriptor>), RouteError>(
                RouteError::Authentication,
            ),
            r is Ok ==> r->Ok_0.0 == (if self.keyring.blind_verifies(
                AccountLevel::Plus,
                token,
                sig,
            ) {
                AccountLevel::Plus
            } else {
                AccountLevel::Free
            }),
            r is Ok ==> r->Ok_0.1@.len() == self.bridges.rows@.len(),
            r is Ok ==> forall|i: int|
                0 <= i < r->Ok_0.1@.len() ==> same_bridge(
                    #[trigger] r->Ok_0.1@[i],
                    self.bridges.rows@[i],
                ),
    {
        let level = if self.keyring.blind_verify(AccountLevel::Plus, token, sig) {
            AccountLevel::Plus
        } else if self.keyring.blind_verify(AccountLevel::Free, token, sig) {
            AccountLevel::Free
        } else {
            return Err(RouteError::Authentication);
        };
        let selection_key = encode_u128(token);
        let bridges = self.bridges.query_bridges(&selection_key);
        Ok((level, bridges))
    }

    /// Registers an exit descriptor. Two independent checks are enforced in
    /// turn: the outer tag must match the exit secret (the sender holds the
    /// shared operator secret), then the inner self-signature must verify
    /// against the exit's own embedded key under the descriptor domain tag
    /// (the content was signed by the claimed identity); the country code
    /// must also be a known one. Only then is the row upserted by identity
    /// key, replacing any prior row for that key.
    pub fn insert_exit(&mut self, descriptor: MacExit) -> (r: Result<(), RegisterError>)
        requires
            old(self).wf(),
        ensures
            final(self).wf(),
            r is Ok <==> old(self).exit_mac_ok(descriptor) && signed_exit_ok(descriptor.inner)
                && Self::exit_country_ok(descriptor),
            r == Err::<(), RegisterError>(RegisterError::BadMac) <==> !old(self).exit_mac_ok(
                descriptor,
            ),
            r == Err::<(), RegisterError>(RegisterError::BadSignature) <==> old(self).exit_mac_ok(
                descriptor,
            ) && !signed_exit_ok(descriptor.inner),
            r == Err::<(), RegisterError>(RegisterError::BadCountry) <==> old(self).exit_mac_ok(
                descriptor,
            ) && signed_exit_ok(descriptor.inner) && !Self::exit_country_ok(descriptor),
            r is Err ==> *final(self) == *old(self),
            r is Ok ==> final(self).exits.has_row(Self::exit_row_of(descriptor)),
            r is Ok ==> (old(self).exits.has_key(descriptor.inner.pubkey@) ==> exists|i: int|
                0 <= i < old(self).exits.rows@.len() && old(self).exits.rows@[i].pubkey@
                    == descriptor.inner.pubkey@ && final(self).exits.rows@
                    == old(self).exits.rows@.update(i, Self::exit_row_of(descriptor))),
            r is Ok ==> (!old(self).exits.has_key(descriptor.inner.pubkey@) ==> final(self).exits.rows@ == old(self).exits.rows@.push(Self::exit_row_of(descriptor))),
            final(self).keyring == old(self).keyring,
            final(self).master_sk == old(self).master_sk,
            final(self).bridges == old(self).bridges,
            final(self).tokens == old(self).tokens,
            final(self).cache == old(self).cache,
            final(self).city_names == old(self).city_names,
    {
        let key = blake3_hash(&self.exit_token);
        let signed = match descriptor.verify(&key) {
            Ok(s) => s,
            Err(e) => {
                return Err(e);
            },
        };
        if !signed.check() {
            return Err(RegisterError::BadSignature);
        }
        let SignedExit { pubkey, desc, .. } = signed;
        if !country_code_known(desc.country.a, desc.country.b) {
            return Err(RegisterError::BadCountry);
        }
        let row = ExitRow { pubkey, desc };
        assert(row == Self::exit_row_of(descriptor));
        self.exits.upsert(row);
        Ok(())
    }

    /// Registers a bridge descriptor. Bridges carry no signing identity:
    /// trust is solely the shared bridge secret, so only the tag is checked,
    /// then the row is upserted by listen endpoint, overwriting cookie, pool
    /// and expiry on conflict.
    pub fn insert_bridge(&mut self, descriptor: MacBridge) -> (r: Result<(), RegisterError>)
        requires
            old(self).wf(),
        ensures
            final(self).wf(),
            r is Ok <==> old(self).bridge_mac_ok(descriptor),
            r is Err ==> r == Err::<(), RegisterError>(RegisterError::BadMac) && *final(self)
                == *old(self),
            r is Ok ==> final(self).bridges.has_row(descriptor.inner),
            r is Ok ==> (old(self).bridges.has_key(descriptor.inner.control_listen) ==> exists|
                i: int,
            |
                0 <= i < old(self).bridges.rows@.len()
                    && old(self).bridges.rows@[i].control_listen
                    == descriptor.inner.control_listen && final(self).bridges.rows@
                    == old(self).bridges.rows@.update(i, descriptor.inner)),
            r is Ok ==> (!old(self).bridges.has_key(descriptor.inner.control_listen) ==> final(self).bridges.rows@ == old(self).bridges.rows@.push(descriptor.inner)),
            final(self).keyring == old(self).keyring,
            final(self).master_sk == old(self).master_sk,
            final(self).exits == old(self).exits,
            final(self).tokens == old(self).tokens,
            final(self).cache == old(self).cache,
            final(self).city_names == old(self).city_names,
    {
        let key = blake3_hash(&self.bridge_token);
        let inner = match descriptor.verify(&key) {
            Ok(d) => d,
            Err(e) => {
                return Err(e);
            },
        };
        assert(inner == descriptor.inner);
        self.bridges.upsert(inner);
        Ok(())
    }
}

} // verus!
