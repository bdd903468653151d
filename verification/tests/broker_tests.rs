use geph5_broker::broker::{exchange_for_blind_signature, BrokerImpl, TokenCheck};
use geph5_broker::catalog::CATALOG_TTL_SECS;
use geph5_broker::codec::encode_dom_msg;
use geph5_broker::keyring::{blind, unblind, Keyring};
use geph5_broker::tokens::{BEARER_TTL_SECS, MINT_LIMIT};
use geph5_broker::types::{
    AccountLevel, AuthError, BridgeDescriptor, CityEntry, CountryCode, Credential, Endpoint,
    ExitDescriptor, RegisterError, RouteError,
};
use geph5_broker::wrap::{MacBridge, MacExit, SignedExit, DOMAIN_EXIT_DESCRIPTOR};

fn test_keyring() -> Keyring {
    Keyring { free_master: 0x1111_2222_3333_4444_5555_6666_7777_8888, plus_master: 0x9999_aaaa_bbbb_cccc_dddd_eeee_ffff_0001 }
}

fn test_broker() -> BrokerImpl {
    BrokerImpl::new(
        test_keyring(),
        vec![7u8; 32],
        b"exit-operator-secret".to_vec(),
        b"bridge-operator-secret".to_vec(),
        vec![CityEntry { country: CountryCode { a: b'u', b: b's' }, name: b"New York".to_vec() }],
    )
}

fn sample_exit_desc() -> ExitDescriptor {
    ExitDescriptor {
        c2e_listen: Endpoint { ip: 0x0a000001, port: 443 },
        b2e_listen: Endpoint { ip: 0x0a000002, port: 8443 },
        country: CountryCode { a: b'u', b: b's' },
        city: b"New York".to_vec(),
        load: 125,
        expiry: 99_999,
    }
}

fn sample_bridge_desc(port: u16, cookie: &[u8]) -> BridgeDescriptor {
    BridgeDescriptor {
        control_listen: Endpoint { ip: 0xc0a80001, port },
        control_cookie: cookie.to_vec(),
        pool: b"main".to_vec(),
        expiry: 77_777,
    }
}

fn exit_mac_key(shared_token: &[u8]) -> Vec<u8> {
    blake3::hash(shared_token).as_bytes().to_vec()
}

#[test]
fn subkey_is_deterministic_and_level_separated() {
    let b = test_broker();
    let k = test_keyring();
    let free3 = b.get_mizaru_subkey(AccountLevel::Free, 3);
    assert_eq!(free3, (k.free_master ^ 3u128).to_le_bytes().to_vec());
    assert_eq!(free3, b.get_mizaru_subkey(AccountLevel::Free, 3));
    assert_ne!(free3, b.get_mizaru_subkey(AccountLevel::Plus, 3));
    assert_ne!(free3, b.get_mizaru_subkey(AccountLevel::Free, 4));
}

#[test]
fn bearer_issuance_binds_fixed_user_id() {
    let mut b = test_broker();
    let token = b.get_auth_token(Credential::TestDummy, 1_000).unwrap();
    assert_eq!(token.len(), 16);
    let record = b.tokens.tokens.last().unwrap();
    assert_eq!(record.user_id, 42);
    assert_eq!(record.token, token);
}

#[test]
fn bearer_issuance_rate_limits_excess_calls() {
    let mut b = test_broker();
    for _ in 0..MINT_LIMIT {
        assert!(b.get_auth_token(Credential::TestDummy, 1_000).is_ok());
    }
    assert_eq!(b.get_auth_token(Credential::TestDummy, 1_000), Err(AuthError::RateLimited));
    assert_eq!(b.get_auth_token(Credential::TestDummy, 1_001), Err(AuthError::RateLimited));
    // a fresh window clears the limiter
    assert!(b.get_auth_token(Credential::TestDummy, 1_000 + 3_600).is_ok());
}

#[test]
fn exchange_round_trip_verifies_under_issuing_level() {
    let mut b = test_broker();
    let bearer = b.get_auth_token(Credential::TestDummy, 1_000).unwrap();
    let client_token: u128 = 0xdead_beef_0123_4567_89ab_cdef_5555_0001;
    let mask: u128 = 0x0f0f_0f0f_1111_2222_3333_4444_5555_6666;
    let blinded = blind(client_token, mask);
    let bsig = b.get_connect_token(&bearer, AccountLevel::Plus, 9, blinded, 1_000).unwrap();
    assert_eq!(bsig.epoch, 9);
    let sig = unblind(bsig, mask);
    assert!(b.keyring.blind_verify(AccountLevel::Plus, client_token, sig));
    // never under the other level: the families are disjoint
    assert!(!b.keyring.blind_verify(AccountLevel::Free, client_token, sig));
}

#[test]
fn exchange_rejects_invalid_and_expired_bearers() {
    let mut b = test_broker();
    let garbage = vec![0u8; 16];
    assert_eq!(
        b.get_connect_token(&garbage, AccountLevel::Free, 1, 5, 1_000),
        Err(AuthError::Forbidden)
    );
    let bearer = b.get_auth_token(Credential::TestDummy, 1_000).unwrap();
    // expired: past the bearer's lifetime
    assert_eq!(
        b.get_connect_token(&bearer, AccountLevel::Free, 1, 5, 1_000 + BEARER_TTL_SECS),
        Err(AuthError::Forbidden)
    );
    // structurally invalid: truncated token bytes
    let mut short = bearer.clone();
    short.pop();
    assert_eq!(
        b.get_connect_token(&short, AccountLevel::Free, 1, 5, 1_000),
        Err(AuthError::Forbidden)
    );
}

#[test]
fn exchange_masks_store_faults_as_rate_limiting() {
    let kr = test_keyring();
    let ok = exchange_for_blind_signature(TokenCheck::Valid, &kr, AccountLevel::Free, 2, 77);
    assert!(ok.is_ok());
    assert_eq!(
        exchange_for_blind_signature(TokenCheck::Invalid, &kr, AccountLevel::Free, 2, 77),
        Err(AuthError::Forbidden)
    );
    assert_eq!(
        exchange_for_blind_signature(TokenCheck::StoreFault, &kr, AccountLevel::Free, 2, 77),
        Err(AuthError::RateLimited)
    );
}

#[test]
fn register_exit_accepts_authenticated_descriptor() {
    let mut b = test_broker();
    let sk = vec![3u8; 32];
    let signed = SignedExit::new(&sk, sample_exit_desc());
    let key = exit_mac_key(b"exit-operator-secret");
    let wrapped = MacExit::new(signed, &key);
    assert_eq!(b.insert_exit(wrapped), Ok(()));
    assert_eq!(b.exits.rows.len(), 1);
    assert_eq!(b.exits.rows[0].desc.city, b"New York".to_vec());
}

#[test]
fn register_exit_rejects_bad_mac_even_with_good_signature() {
    let mut b = test_broker();
    let sk = vec![3u8; 32];
    let signed = SignedExit::new(&sk, sample_exit_desc());
    let wrong_key = exit_mac_key(b"not-the-exit-secret");
    let wrapped = MacExit::new(signed, &wrong_key);
    assert_eq!(b.insert_exit(wrapped), Err(RegisterError::BadMac));
    assert_eq!(b.exits.rows.len(), 0);
}

#[test]
fn register_exit_rejects_bad_signature_even_with_good_mac() {
    let mut b = test_broker();
    let sk = vec![3u8; 32];
    let mut signed = SignedExit::new(&sk, sample_exit_desc());
    signed.sig[0] ^= 0xff;
    let key = exit_mac_key(b"exit-operator-secret");
    // the tag is computed over the tampered wrapper, so the tag itself matches
    let wrapped = MacExit::new(signed, &key);
    assert_eq!(b.insert_exit(wrapped), Err(RegisterError::BadSignature));
    assert_eq!(b.exits.rows.len(), 0);
}

#[test]
fn register_exit_rejects_unknown_country() {
    let mut b = test_broker();
    let sk = vec![3u8; 32];
    let mut desc = sample_exit_desc();
    desc.country = CountryCode { a: b'x', b: b'x' };
    let signed = SignedExit::new(&sk, desc);
    let key = exit_mac_key(b"exit-operator-secret");
    let wrapped = MacExit::new(signed, &key);
    assert_eq!(b.insert_exit(wrapped), Err(RegisterError::BadCountry));
}

#[test]
fn register_exit_is_idempotent_last_write_wins() {
    let mut b = test_broker();
    let sk = vec![3u8; 32];
    let key = exit_mac_key(b"exit-operator-secret");
    let first = MacExit::new(SignedExit::new(&sk, sample_exit_desc()), &key);
    assert_eq!(b.insert_exit(first), Ok(()));
    let mut updated = sample_exit_desc();
    updated.city = b"Boston".to_vec();
    updated.load = 990;
    let second = MacExit::new(SignedExit::new(&sk, updated), &key);
    assert_eq!(b.insert_exit(second), Ok(()));
    assert_eq!(b.exits.rows.len(), 1);
    assert_eq!(b.exits.rows[0].desc.city, b"Boston".to_vec());
    assert_eq!(b.exits.rows[0].desc.load, 990);
}

#[test]
fn register_bridge_checks_mac_and_upserts_by_endpoint() {
    let mut b = test_broker();
    let key = blake3::hash(b"bridge-operator-secret").as_bytes().to_vec();
    let first = MacBridge::new(sample_bridge_desc(9000, b"cookie-one"), &key);
    assert_eq!(b.insert_bridge(first), Ok(()));
    let tampered = {
        let mut m = MacBridge::new(sample_bridge_desc(9001, b"cookie-two"), &key);
        m.tag[5] ^= 1;
        m
    };
    assert_eq!(b.insert_bridge(tampered), Err(RegisterError::BadMac));
    assert_eq!(b.bridges.rows.len(), 1);
    // same endpoint, updated cookie: exactly one row, the latest
    let updated = MacBridge::new(sample_bridge_desc(9000, b"cookie-three"), &key);
    assert_eq!(b.insert_bridge(updated), Ok(()));
    assert_eq!(b.bridges.rows.len(), 1);
    assert_eq!(b.bridges.rows[0].control_cookie, b"cookie-three".to_vec());
}

#[test]
fn bridge_tag_matches_keyed_blake3_of_encoding() {
    let key = blake3::hash(b"bridge-operator-secret").as_bytes().to_vec();
    let desc = sample_bridge_desc(9000, b"cookie-one");
    let encoding = geph5_broker::codec::encode_bridge_desc(&desc);
    let wrapped = MacBridge::new(desc, &key);
    let key_arr: [u8; 32] = key.as_slice().try_into().unwrap();
    let expect = blake3::keyed_hash(&key_arr, &encoding);
    assert_eq!(wrapped.tag.as_slice(), expect.as_bytes());
}

#[test]
fn catalog_is_cached_inside_ttl_and_rebuilt_after() {
    let mut b = test_broker();
    let sk = vec![3u8; 32];
    let key = exit_mac_key(b"exit-operator-secret");
    b.insert_exit(MacExit::new(SignedExit::new(&sk, sample_exit_desc()), &key)).unwrap();
    let first = b.get_exits(100);
    assert_eq!(b.cache.rebuilds, 1);
    // a later registration does not disturb the cached snapshot inside the TTL
    let sk2 = vec![4u8; 32];
    b.insert_exit(MacExit::new(SignedExit::new(&sk2, sample_exit_desc()), &key)).unwrap();
    let second = b.get_exits(100 + CATALOG_TTL_SECS - 1);
    assert_eq!(b.cache.rebuilds, 1);
    assert_eq!(first.payload, second.payload);
    assert_eq!(first.sig, second.sig);
    // past the TTL: exactly one more rebuild, now with both exits
    let third = b.get_exits(100 + CATALOG_TTL_SECS);
    assert_eq!(b.cache.rebuilds, 2);
    assert_ne!(first.payload, third.payload);
}

#[test]
fn catalog_signature_verifies_under_master_key() {
    let mut b = test_broker();
    let cat = b.get_exits(50);
    let msg = encode_dom_msg(DOMAIN_EXIT_DESCRIPTOR, &cat.payload);
    let vk_arr: [u8; 32] = cat.pubkey.as_slice().try_into().unwrap();
    let sig_arr: [u8; 64] = cat.sig.as_slice().try_into().unwrap();
    let vk = ed25519_dalek::VerifyingKey::from_bytes(&vk_arr).unwrap();
    let sig = ed25519_dalek::Signature::from_bytes(&sig_arr);
    ed25519_dalek::Verifier::verify(&vk, &msg, &sig).unwrap();
    // a payload of different bytes must not verify under the same signature
    let mut other = msg.clone();
    other[0] ^= 1;
    assert!(ed25519_dalek::Verifier::verify(&vk, &other, &sig).is_err());
}

#[test]
fn routes_reject_unauthenticated_tokens_without_lookup() {
    let b = test_broker();
    let token: u128 = 12345;
    let bogus = unblind(
        geph5_broker::keyring::BlindedSignature { epoch: 1, value: 0 },
        0,
    );
    let r = b.get_routes(token, bogus);
    assert!(matches!(r, Err(RouteError::Authentication)));
}

#[test]
fn routes_return_candidates_for_authenticated_tokens() {
    let mut b = test_broker();
    let key = blake3::hash(b"bridge-operator-secret").as_bytes().to_vec();
    b.insert_bridge(MacBridge::new(sample_bridge_desc(9000, b"c1"), &key)).unwrap();
    b.insert_bridge(MacBridge::new(sample_bridge_desc(9002, b"c2"), &key)).unwrap();

    let token: u128 = 777;
    let mask: u128 = 888;
    let bsig = b.keyring.blind_sign(AccountLevel::Free, 4, blind(token, mask));
    let sig = unblind(bsig, mask);
    let (level, bridges) = b.get_routes(token, sig).unwrap();
    assert_eq!(level, AccountLevel::Free);
    assert_eq!(bridges.len(), 2);
    assert_eq!(bridges[0].control_cookie, b"c1".to_vec());
    // the same token sees the same candidates again
    let (_, again) = b.get_routes(token, sig).unwrap();
    assert_eq!(again.len(), 2);
}

#[test]
fn mac_key_is_the_hash_of_the_shared_token_not_the_raw_token() {
    let mut b = test_broker();
    let sk = vec![3u8; 32];
    let mut raw_key = b"exit-operator-secret".to_vec();
    raw_key.resize(32, 0);
    let wrapped = MacExit::new(SignedExit::new(&sk, sample_exit_desc()), &raw_key);
    assert_eq!(b.insert_exit(wrapped), Err(RegisterError::BadMac));
    assert_eq!(b.exits.rows.len(), 0);
}

#[test]
fn minted_bearer_tokens_are_distinct() {
    let mut b = test_broker();
    let one = b.get_auth_token(Credential::TestDummy, 1_000).unwrap();
    let two = b.get_auth_token(Credential::TestDummy, 1_000).unwrap();
    assert_ne!(one, two);
    assert_eq!(b.tokens.tokens.len(), 2);
}
