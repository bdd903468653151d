//! Canonical byte encoding of the broker's data. Authentication tags and
//! signatures are computed over these encodings, so both sides of a check
//! agree on the exact bytes.
use vstd::prelude::*;

use crate::types::{BridgeDescriptor, CityEntry, Endpoint, ExitDescriptor, ExitRow};

verus! {

/// Little-endian bytes of a 16-bit integer.
pub open spec fn u16_le(x: u16) -> Seq<u8> {
    seq![(x & 0xff) as u8, ((x >> 8) & 0xff) as u8]
}

/// Little-endian bytes of a 32-bit integer.
pub open spec fn u32_le(x: u32) -> Seq<u8> {
    seq![
        (x & 0xff) as u8,
        ((x >> 8) & 0xff) as u8,
        ((x >> 16) & 0xff) as u8,
        ((x >> 24) & 0xff) as u8,
    ]
}

/// Little-endian bytes of a 64-bit integer.
pub open spec fn u64_le(x: u64) -> Seq<u8> {
    u32_le((x & 0xffff_ffff) as u32) + u32_le(((x >> 32) & 0xffff_ffff) as u32)
}

/// Little-endian bytes of a 128-bit integer.
pub open spec fn u128_le(x: u128) -> Seq<u8> {
    u64_le((x & 0xffff_ffff_ffff_ffff) as u64) + u64_le(((x >> 64) & 0xffff_ffff_ffff_ffff) as u64)
}

/// A length-prefixed byte string.
pub open spec fn enc_bytes(b: Seq<u8>) -> Seq<u8> {
    u64_le(b.len() as u64) + b
}

/// An endpoint: address then port.
pub open spec fn enc_endpoint(e: Endpoint) -> Seq<u8> {
    u32_le(e.ip) + u16_le(e.port)
}

/// An exit descriptor, field by field.
pub open spec fn enc_exit_desc(d: ExitDescriptor) -> Seq<u8> {
    enc_endpoint(d.c2e_listen) + enc_endpoint(d.b2e_listen) + seq![d.country.a, d.country.b]
        + enc_bytes(d.city@) + u32_le(d.load) + u64_le(d.expiry)
}

/// A bridge descriptor, field by field.
pub open spec fn enc_bridge_desc(d: BridgeDescriptor) -> Seq<u8> {
    enc_endpoint(d.control_listen) + enc_bytes(d.control_cookie@) + enc_bytes(d.pool@)
        + u64_le(d.expiry)
}

/// The self-signed exit wrapper: identity key, descriptor, signature.
pub open spec fn enc_signed_exit(pubkey: Seq<u8>, d: ExitDescriptor, sig: Seq<u8>) -> Seq<u8> {
    enc_bytes(pubkey) + enc_exit_desc(d) + enc_bytes(sig)
}

/// A message under a domain-separation tag: a signature over it cannot be
/// replayed for another purpose.
pub open spec fn dom_msg(domain: u64, body: Seq<u8>) -> Seq<u8> {
    u64_le(domain) + body
}

/// All exit rows, in order.
pub open spec fn enc_exit_rows(rows: Seq<ExitRow>) -> Seq<u8>
    decreases rows.len(),
{
    if rows.len() == 0 {
        Seq::empty()
    } else {
        enc_exit_rows(rows.drop_last()) + enc_bytes(rows.last().pubkey@)
            + enc_exit_desc(rows.last().desc)
    }
}

/// All city-name entries, in order.
pub open spec fn enc_city_entries(entries: Seq<CityEntry>) -> Seq<u8>
    decreases entries.len(),
{
    if entries.len() == 0 {
        Seq::empty()
    } else {
        enc_city_entries(entries.drop_last()) + seq![entries.last().country.a,
            entries.last().country.b] + enc_bytes(entries.last().name@)
    }
}

/// The catalog payload: counted exit rows, then the counted display table.
pub open spec fn enc_catalog(exits: Seq<ExitRow>, city_names: Seq<CityEntry>) -> Seq<u8> {
    u64_le(exits.len() as u64) + enc_exit_rows(exits) + u64_le(city_names.len() as u64)
        + enc_city_entries(city_names)
}

/// Appends the little-endian bytes of a 16-bit integer.
pub fn push_u16(out: &mut Vec<u8>, x: u16)
    ensures
        final(out)@ == old(out)@ + u16_le(x),
{
    out.push((x & 0xff) as u8);
    out.push(((x >> 8) & 0xff) as u8);
    assert(out@ =~= old(out)@ + u16_le(x));
}

/// Appends the little-endian bytes of a 32-bit integer.
pub fn push_u32(out: &mut Vec<u8>, x: u32)
    ensures
        final(out)@ == old(out)@ + u32_le(x),
{
    out.push((x & 0xff) as u8);
    out.push(((x >> 8) & 0xff) as u8);
    out.push(((x >> 16) & 0xff) as u8);
    out.push(((x >> 24) & 0xff) as u8);
    assert(out@ =~= old(out)@ + u32_le(x));
}

/// Appends the little-endian bytes of a 64-bit integer.
pub fn push_u64(out: &mut Vec<u8>, x: u64)
    ensures
        final(out)@ == old(out)@ + u64_le(x),
{
    push_u32(out, (x & 0xffff_ffff) as u32);
    push_u32(out, ((x >> 32) & 0xffff_ffff) as u32);
    assert(out@ =~= old(out)@ + u64_le(x));
}

/// Appends the little-endian bytes of a 128-bit integer.
pub fn push_u128(out: &mut Vec<u8>, x: u128)
    ensures
        final(out)@ == old(out)@ + u128_le(x),
{
    push_u64(out, (x & 0xffff_ffff_ffff_ffff) as u64);
    push_u64(out, ((x >> 64) & 0xffff_ffff_ffff_ffff) as u64);
    assert(out@ =~= old(out)@ + u128_le(x));
}

/// Encodes a 128-bit integer on its own.
pub fn encode_u128(x: u128) -> (r: Vec<u8>)
    ensures
        r@ == u128_le(x),
{
    let mut out: Vec<u8> = Vec::new();
    push_u128(&mut out, x);
    assert(out@ =~= u128_le(x));
    out
}

/// Appends a length-prefixed byte string.
pub fn push_bytes(out: &mut Vec<u8>, b: &Vec<u8>)
    ensures
        final(out)@ == old(out)@ + enc_bytes(b@),
{
    push_u64(out, b.len() as u64);
    let mut i: usize = 0;
    while i < b.len()
        invariant
            i <= b@.len(),
            out@ == old(out)@ + u64_le(b@.len() as u64) + b@.take(i as int),
        decreases b@.len() - i,
    {
        out.push(b[i]);
        assert(b@.take(i + 1 as int) =~= b@.take(i as int) + seq![b@[i as int]]);
        assert(out@ =~= old(out)@ + u64_le(b@.len() as u64) + b@.take(i + 1 as int));
        i = i + 1;
    }
    assert(b@.take(b@.len() as int) =~= b@);
    assert(out@ =~= old(out)@ + enc_bytes(b@));
}

/// Appends an encoded endpoint.
pub fn push_endpoint(out: &mut Vec<u8>, e: &Endpoint)
    ensures
        final(out)@ == old(out)@ + enc_endpoint(*e),
{
    push_u32(out, e.ip);
    push_u16(out, e.port);
    assert(out@ =~= old(out)@ + enc_endpoint(*e));
}

/// Appends an encoded exit descriptor.
pub fn push_exit_desc(out: &mut Vec<u8>, d: &ExitDescriptor)
    ensures
        final(out)@ == old(out)@ + enc_exit_desc(*d),
{
    push_endpoint(out, &d.c2e_listen);
    push_endpoint(out, &d.b2e_listen);
    out.push(d.country.a);
    out.push(d.country.b);
    push_bytes(out, &d.city);
    push_u32(out, d.load);
    push_u64(out, d.expiry);
    assert(out@ =~= old(out)@ + enc_exit_desc(*d));
}

/// Encodes a bridge descriptor on its own.
pub fn encode_bridge_desc(d: &BridgeDescriptor) -> (r: Vec<u8>)
    ensures
        r@ == enc_bridge_desc(*d),
{
    let mut out: Vec<u8> = Vec::new();
    push_endpoint(&mut out, &d.control_listen);
    push_bytes(&mut out, &d.control_cookie);
    push_bytes(&mut out, &d.pool);
    push_u64(&mut out, d.expiry);
    assert(out@ =~= enc_bridge_desc(*d));
    out
}

/// Encodes a self-signed exit wrapper on its own.
pub fn encode_signed_exit(pubkey: &Vec<u8>, d: &ExitDescriptor, sig: &Vec<u8>) -> (r: Vec<u8>)
    ensures
        r@ == enc_signed_exit(pubkey@, *d, sig@),
{
    let mut out: Vec<u8> = Vec::new();
    push_bytes(&mut out, pubkey);
    push_exit_desc(&mut out, d);
    push_bytes(&mut out, sig);
    assert(out@ =~= enc_signed_exit(pubkey@, *d, sig@));
    out
}

/// Encodes a message under its domain-separation tag.
pub fn encode_dom_msg(domain: u64, body: &Vec<u8>) -> (r: Vec<u8>)
    ensures
        r@ == dom_msg(domain, body@),
{
    let mut out: Vec<u8> = Vec::new();
    push_u64(&mut out, domain);
    let mut i: usize = 0;
    while i < body.len()
        invariant
            i <= body@.len(),
            out@ == u64_le(domain) + body@.take(i as int),
        decreases body@.len() - i,
    {
        out.push(body[i]);
        assert(body@.take(i + 1 as int) =~= body@.take(i as int) + seq![body@[i as int]]);
        assert(out@ =~= u64_le(domain) + body@.take(i + 1 as int));
        i = i + 1;
    }
    assert(body@.take(body@.len() as int) =~= body@);
    assert(out@ =~= dom_msg(domain, body@));
    out
}

/// Encodes the catalog payload on its own.
pub fn encode_catalog(exits: &Vec<ExitRow>, city_names: &Vec<CityEntry>) -> (r: Vec<u8>)
    ensures
        r@ == enc_catalog(exits@, city_names@),
{
    let mut out: Vec<u8> = Vec::new();
    push_u64(&mut out, exits.len() as u64);
    let mut i: usize = 0;
    while i < exits.len()
        invariant
            i <= exits@.len(),
            out@ == u64_le(exits@.len() as u64) + enc_exit_rows(exits@.take(i as int)),
        decreases exits@.len() - i,
    {
        let row = &exits[i];
        push_bytes(&mut out, &row.pubkey);
        push_exit_desc(&mut out, &row.desc);
        proof {
            let pre = exits@.take(i as int);
            let post = exits@.take(i + 1 as int);
            assert(post.drop_last() =~= pre);
            assert(post.last() == exits@[i as int]);
        }
        assert(out@ =~= u64_le(exits@.len() as u64) + enc_exit_rows(exits@.take(i + 1 as int)));
        i = i + 1;
    }
    assert(exits@.take(exits@.len() as int) =~= exits@);
    push_u64(&mut out, city_names.len() as u64);
    let ghost head = u64_le(exits@.len() as u64) + enc_exit_rows(exits@) + u64_le(
        city_names@.len() as u64,
    );
    let mut j: usize = 0;
    while j < city_names.len()
        invariant
            j <= city_names@.len(),
            out@ == head + enc_city_entries(city_names@.take(j as int)),
        decreases city_names@.len() - j,
    {
        let entry = &city_names[j];
        out.push(entry.country.a);
        out.push(entry.country.b);
        push_bytes(&mut out, &entry.name);
        proof {
            let pre = city_names@.take(j as int);
            let post = city_names@.take(j + 1 as int);
            assert(post.drop_last() =~= pre);
            assert(post.last() == city_names@[j as int]);
        }
        assert(out@ =~= head + enc_city_entries(city_names@.take(j + 1 as int)));
        j = j + 1;
    }
    assert(city_names@.take(city_names@.len() as int) =~= city_names@);
    assert(out@ =~= enc_catalog(exits@, city_names@));
    out
}

/// Copies a byte string.
pub fn clone_bytes(v: &Vec<u8>) -> (r: Vec<u8>)
    ensures
        r@ == v@,
{
    let mut out: Vec<u8> = Vec::new();
    let mut i: usize = 0;
    while i < v.len()
        invariant
            i <= v@.len(),
            out@ == v@.take(i as int),
        decreases v@.len() - i,
    {
        out.push(v[i]);
        assert(v@.take(i + 1 as int) =~= v@.take(i as int) + seq![v@[i as int]]);
        i = i + 1;
    }
    assert(v@.take(v@.len() as int) =~= v@);
    out
}

/// Whether two byte strings are equal.
pub fn bytes_eq(a: &Vec<u8>, b: &Vec<u8>) -> (r: bool)
    ensures
        r == (a@ == b@),
{
    if a.len() != b.len() {
        assert(a@ != b@);
        return false;
    }
    let mut i: usize = 0;
    while i < a.len()
        invariant
            i <= a@.len(),
            a@.len() == b@.len(),
            forall|k: int| 0 <= k < i ==> a@[k] == b@[k],
        decreases a@.len() - i,
    {
        if a[i] != b[i] {
            assert(a@ != b@);
            return false;
        }
        i = i + 1;
    }
    assert(a@ =~= b@);
    true
}

} // verus!
