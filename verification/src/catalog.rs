//! The TTL-cached, signed exit catalog. A hit inside the TTL serves the
//! cached signed snapshot unchanged; a miss rebuilds the snapshot from the
//! exits table, signs it under the broker's master key and the catalog's
//! domain tag, and caches it. The rebuild counter makes the single-flight
//! guarantee observable: inside one TTL window it moves at most once.
use vstd::prelude::*;

use crate::codec::clone_bytes;

verus! {

/// How long one signed snapshot is served before it is rebuilt, in seconds.
pub const CATALOG_TTL_SECS: u64 = 10;

/// A catalog payload signed by the broker's master key: the payload is the
/// canonical encoding of the exits table and the city display table.
#[derive(Debug)]
pub struct SignedCatalog {
    /// The broker's 32-byte master verifying key.
    pub pubkey: Vec<u8>,
    /// Canonical encoding of the catalog contents.
    pub payload: Vec<u8>,
    /// 64-byte signature over the domain-tagged payload.
    pub sig: Vec<u8>,
}

impl SignedCatalog {
    /// An independent copy carrying the same bytes.
    pub fn duplicate(&self) -> (r: SignedCatalog)
        ensures
            r.pubkey@ == self.pubkey@,
            r.payload@ == self.payload@,
            r.sig@ == self.sig@,
    {
        SignedCatalog {
            pubkey: clone_bytes(&self.pubkey),
            payload: clone_bytes(&self.payload),
            sig: clone_bytes(&self.sig),
        }
    }
}

/// The catalog cache: the last signed snapshot, when it was built, and how
/// many rebuilds have ever run.
#[derive(Debug)]
pub struct CatalogCache {
    pub snapshot: Option<SignedCatalog>,
    /// When the cached snapshot was built. Meaningless while `snapshot` is
    /// `None`.
    pub built_at: u64,
    /// How many rebuilds have run (saturating).
    pub rebuilds: u64,
}

impl CatalogCache {
    pub fn new() -> (r: CatalogCache)
        ensures
            r.snapshot is None,
            r.rebuilds == 0,
    {
        CatalogCache { snapshot: None, built_at: 0, rebuilds: 0 }
    }
}

/// The cache's timing state, stripped of the snapshot's contents: enough to
/// reason about when rebuilds happen.
pub struct CacheStamp {
    /// When the cached snapshot was built, if one is cached.
    pub built_at: Option<u64>,
    pub rebuilds: u64,
}

/// The timing state of a cache.
pub open spec fn stamp_of(c: CatalogCache) -> CacheStamp {
    CacheStamp {
        built_at: if c.snapshot is Some {
            Some(c.built_at)
        } else {
            None
        },
        rebuilds: c.rebuilds,
    }
}

/// Whether a cached snapshot is served as-is at a given time: one is cached,
/// was built no later than now, and its TTL has not passed.
pub open spec fn stamp_fresh(s: CacheStamp, now: u64) -> bool {
    match s.built_at {
        Some(b) => b <= now < b + CATALOG_TTL_SECS,
        None => false,
    }
}

/// The saturating rebuild count after one more rebuild.
pub open spec fn inc_rebuilds(r: u64) -> u64 {
    if r == u64::MAX {
        u64::MAX
    } else {
        (r + 1) as u64
    }
}

/// How one catalog request at a given time moves the timing state: a fresh
/// hit leaves it alone, anything else rebuilds now.
pub open spec fn stamp_step(s: CacheStamp, now: u64) -> CacheStamp {
    if stamp_fresh(s, now) {
        s
    } else {
        CacheStamp { built_at: Some(now), rebuilds: inc_rebuilds(s.rebuilds) }
    }
}

/// The timing state after a whole sequence of requests.
pub open spec fn stamp_fold(s: CacheStamp, times: Seq<u64>) -> CacheStamp
    decreases times.len(),
{
    if times.len() == 0 {
        s
    } else {
        stamp_fold(stamp_step(s, times[0]), times.skip(1))
    }
}

/// A cache built no later than the first request of a window, and whose TTL
/// outlasts the window, serves every request of the window from the cache.
proof fn lemma_fold_all_fresh(s: CacheStamp, times: Seq<u64>, b: u64)
    requires
        s.built_at == Some(b),
        forall|i: int, j: int| 0 <= i <= j < times.len() ==> #[trigger] times[i] <= #[trigger] times[j],
        forall|i: int| 0 <= i < times.len() ==> b <= #[trigger] times[i] < b + CATALOG_TTL_SECS,
    ensures
        stamp_fold(s, times) == s,
    decreases times.len(),
{
    if times.len() > 0 {
        assert(stamp_fresh(s, times[0]));
        let rest = times.skip(1);
        assert forall|i: int, j: int|
            0 <= i <= j < rest.len() implies #[trigger] rest[i] <= #[trigger] rest[j] by {
            assert(rest[i] == times[i + 1]);
            assert(rest[j] == times[j + 1]);
        }
        assert forall|i: int|
            0 <= i < rest.len() implies b <= #[trigger] rest[i] < b + CATALOG_TTL_SECS by {
            assert(rest[i] == times[i + 1]);
        }
        lemma_fold_all_fresh(s, rest, b);
    }
}

/// Any number of catalog requests falling inside one TTL window trigger at
/// most one rebuild: the first miss (if any) rebuilds, and every later
/// request of the window is served from that snapshot.
pub proof fn lemma_single_flight_window(s: CacheStamp, times: Seq<u64>)
    requires
        forall|i: int, j: int| 0 <= i <= j < times.len() ==> #[trigger] times[i] <= #[trigger] times[j],
        forall|i: int|
            0 <= i < times.len() ==> #[trigger] times[i] < times[0] + CATALOG_TTL_SECS,
    ensures
        stamp_fold(s, times).rebuilds <= s.rebuilds + 1,
    decreases times.len(),
{
    if times.len() > 0 {
        let s1 = stamp_step(s, times[0]);
        let rest = times.skip(1);
        assert forall|i: int, j: int|
            0 <= i <= j < rest.len() implies #[trigger] rest[i] <= #[trigger] rest[j] by {
            assert(rest[i] == times[i + 1]);
            assert(rest[j] == times[j + 1]);
        }
        if stamp_fresh(s, times[0]) {
            assert forall|i: int|
                0 <= i < rest.len() implies #[trigger] rest[i] < rest[0] + CATALOG_TTL_SECS by {
                assert(rest[i] == times[i + 1]);
                assert(rest.len() > 0 ==> rest[0] == times[1] && times[0] <= times[1]);
            }
            lemma_single_flight_window(s1, rest);
        } else {
            assert(s1.built_at == Some(times[0]));
            assert forall|i: int|
                0 <= i < rest.len() implies times[0] <= #[trigger] rest[i] < times[0]
                + CATALOG_TTL_SECS by {
                assert(rest[i] == times[i + 1]);
                assert(times[0] <= times[i + 1]);
            }
            lemma_fold_all_fresh(s1, rest, times[0]);
        }
    }
}

} // verus!
