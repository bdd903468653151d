//! Persistence model for authenticated descriptors: an exits table keyed by
//! the exit's identity key and a bridges table keyed by the control listen
//! endpoint, both upserted on conflict. Re-announcement replaces the prior
//! row entirely: last write wins, and each key holds exactly one row.
use vstd::prelude::*;

use crate::codec::{bytes_eq, clone_bytes};
use crate::types::{BridgeDescriptor, ExitRow};

verus! {

/// The exits table: one row per exit identity key.
#[derive(Debug)]
pub struct ExitStore {
    pub rows: Vec<ExitRow>,
}

impl ExitStore {
    /// At most one row per identity key.
    pub open spec fn wf(self) -> bool {
        forall|i: int, j: int|
            0 <= i < j < self.rows@.len() ==> self.rows@[i].pubkey@ != self.rows@[j].pubkey@
    }

    /// Whether some row carries the given identity key.
    pub open spec fn has_key(self, pk: Seq<u8>) -> bool {
        exists|i: int| 0 <= i < self.rows@.len() && self.rows@[i].pubkey@ == pk
    }

    /// Whether the table holds exactly this row.
    pub open spec fn has_row(self, row: ExitRow) -> bool {
        exists|i: int| 0 <= i < self.rows@.len() && self.rows@[i] == row
    }

    pub fn new() -> (r: ExitStore)
        ensures
            r.wf(),
            r.rows@.len() == 0,
    {
        ExitStore { rows: Vec::new() }
    }

    /// Upserts a row by identity key: the new row lands, any prior row under
    /// the same key is gone, rows under other keys stay in place, and the
    /// table grows only when the key is new.
    pub fn upsert(&mut self, row: ExitRow)
        requires
            old(self).wf(),
        ensures
            final(self).wf(),
            final(self).has_row(row),
            old(self).has_key(row.pubkey@) ==> exists|i: int|
                0 <= i < old(self).rows@.len() && old(self).rows@[i].pubkey@ == row.pubkey@
                    && final(self).rows@ == old(self).rows@.update(i, row),
            !old(self).has_key(row.pubkey@) ==> final(self).rows@ == old(self).rows@.push(row),
    {
        let mut i: usize = 0;
        while i < self.rows.len()
            invariant
                i <= self.rows@.len(),
                self.rows@ == old(self).rows@,
                old(self).wf(),
                forall|k: int| 0 <= k < i ==> self.rows@[k].pubkey@ != row.pubkey@,
            decreases self.rows@.len() - i,
        {
            if bytes_eq(&self.rows[i].pubkey, &row.pubkey) {
                assert(old(self).has_key(row.pubkey@));
                self.rows[i] = row;
                assert(self.rows@ == old(self).rows@.update(i as int, row));
                assert(self.rows@[i as int] == row);
                proof {
                    let rs = self.rows@;
                    assert forall|a: int, b: int|
                        0 <= a < b < rs.len() implies rs[a].pubkey@ != rs[b].pubkey@ by {
                        if a != i as int && b != i as int {
                            assert(old(self).rows@[a].pubkey@ != old(self).rows@[b].pubkey@);
                        }
                    }
                }
                return ;
            }
            i = i + 1;
        }
        assert(!old(self).has_key(row.pubkey@));
        self.rows.push(row);
        assert(self.rows@[old(self).rows@.len() as int] == row);
        proof {
            let rs = self.rows@;
            assert forall|a: int, b: int|
                0 <= a < b < rs.len() implies rs[a].pubkey@ != rs[b].pubkey@ by {
                if b == old(self).rows@.len() {
                    assert(rs[a].pubkey@ != row.pubkey@);
                }
            }
        }
    }
}

/// In a well-formed store, a present row is the only one under its key:
/// re-registration by one identity leaves exactly one row, the latest.
pub proof fn lemma_exit_row_unique(s: ExitStore, row: ExitRow)
    requires
        s.wf(),
        s.has_row(row),
    ensures
        exists|i: int|
            0 <= i < s.rows@.len() && s.rows@[i] == row && (forall|j: int|
                0 <= j < s.rows@.len() && j != i ==> s.rows@[j].pubkey@ != row.pubkey@),
{
    let i = choose|i: int| 0 <= i < s.rows@.len() && s.rows@[i] == row;
    assert(s.rows@[i] == row && (forall|j: int|
        0 <= j < s.rows@.len() && j != i ==> s.rows@[j].pubkey@ != row.pubkey@));
}

/// In a well-formed bridge table, a present row is the only one under its
/// endpoint: re-registration by one endpoint leaves exactly one row, the
/// latest.
pub proof fn lemma_bridge_row_unique(s: BridgeStore, row: BridgeDescriptor)
    requires
        s.wf(),
        s.has_row(row),
    ensures
        exists|i: int|
            0 <= i < s.rows@.len() && s.rows@[i] == row && (forall|j: int|
                0 <= j < s.rows@.len() && j != i ==> s.rows@[j].control_listen
                    != row.control_listen),
{
    let i = choose|i: int| 0 <= i < s.rows@.len() && s.rows@[i] == row;
    assert(s.rows@[i] == row && (forall|j: int|
        0 <= j < s.rows@.len() && j != i ==> s.rows@[j].control_listen != row.control_listen));
}

/// Field-for-field sameness of two bridge rows, at the level of views.
pub open spec fn same_bridge(a: BridgeDescriptor, b: BridgeDescriptor) -> bool {
    a.control_listen == b.control_listen && a.control_cookie@ == b.control_cookie@ && a.pool@
        == b.pool@ && a.expiry == b.expiry
}

/// Copies one bridge row.
pub fn clone_bridge(d: &BridgeDescriptor) -> (r: BridgeDescriptor)
    ensures
        same_bridge(r, *d),
{
    BridgeDescriptor {
        control_listen: d.control_listen,
        control_cookie: clone_bytes(&d.control_cookie),
        pool: clone_bytes(&d.pool),
        expiry: d.expiry,
    }
}

/// The bridges table: one row per control listen endpoint.
#[derive(Debug)]
pub struct BridgeStore {
    pub rows: Vec<BridgeDescriptor>,
}

impl BridgeStore {
    /// At most one row per listen endpoint.
    pub open spec fn wf(self) -> bool {
        forall|i: int, j: int|
            0 <= i < j < self.rows@.len() ==> self.rows@[i].control_listen
                != self.rows@[j].control_listen
    }

    /// Whether some row carries the given listen endpoint.
    pub open spec fn has_key(self, listen: crate::types::Endpoint) -> bool {
        exists|i: int| 0 <= i < self.rows@.len() && self.rows@[i].control_listen == listen
    }

    /// Whether the table holds exactly this row.
    pub open spec fn has_row(self, row: BridgeDescriptor) -> bool {
        exists|i: int| 0 <= i < self.rows@.len() && self.rows@[i] == row
    }

    pub fn new() -> (r: BridgeStore)
        ensures
            r.wf(),
            r.rows@.len() == 0,
    {
        BridgeStore { rows: Vec::new() }
    }

    /// Upserts a row by listen endpoint, overwriting cookie, pool and expiry
    /// on conflict. Re-registration by the same endpoint is expected periodic
    /// behaviour, not an error.
    pub fn upsert(&mut self, row: BridgeDescriptor)
        requires
            old(self).wf(),
        ensures
            final(self).wf(),
            final(self).has_row(row),
            old(self).has_key(row.control_listen) ==> exists|i: int|
                0 <= i < old(self).rows@.len() && old(self).rows@[i].control_listen
                    == row.control_listen && final(self).rows@ == old(self).rows@.update(i, row),
            !old(self).has_key(row.control_listen) ==> final(self).rows@ == old(
                self,
            ).rows@.push(row),
    {
        let mut i: usize = 0;
        while i < self.rows.len()
            invariant
                i <= self.rows@.len(),
                self.rows@ == old(self).rows@,
                old(self).wf(),
                forall|k: int| 0 <= k < i ==> self.rows@[k].control_listen != row.control_listen,
            decreases self.rows@.len() - i,
        {
            if self.rows[i].control_listen == row.control_listen {
                assert(old(self).has_key(row.control_listen));
                self.rows[i] = row;
                assert(self.rows@ == old(self).rows@.update(i as int, row));
                assert(self.rows@[i as int] == row);
                proof {
                    let rs = self.rows@;
                    assert forall|a: int, b: int|
                        0 <= a < b < rs.len() implies rs[a].control_listen
                        != rs[b].control_listen by {
                        if a != i as int && b != i as int {
                            assert(old(self).rows@[a].control_listen
                                != old(self).rows@[b].control_listen);
                        }
                    }
                }
                return ;
            }
            i = i + 1;
        }
        assert(!old(self).has_key(row.control_listen));
        self.rows.push(row);
        assert(self.rows@[old(self).rows@.len() as int] == row);
        proof {
            let rs = self.rows@;
            assert forall|a: int, b: int|
                0 <= a < b < rs.len() implies rs[a].control_listen != rs[b].control_listen by {
                if b == old(self).rows@.len() {
                    assert(rs[a].control_listen != row.control_listen);
                }
            }
        }
    }

    /// Fetches the candidate bridges for a selection key. Deterministic in
    /// the key and the table; the present matching policy admits every stored
    /// bridge for every key (level-based restriction is an open policy
    /// point), so the same caller sees the same candidates on every call.
    pub fn query_bridges(&self, selection_key: &Vec<u8>) -> (r: Vec<BridgeDescriptor>)
        ensures
            r@.len() == self.rows@.len(),
            forall|i: int| 0 <= i < r@.len() ==> same_bridge(#[trigger] r@[i], self.rows@[i]),
    {
        let _ = selection_key.len();
        let mut out: Vec<BridgeDescriptor> = Vec::new();
        let mut i: usize = 0;
        while i < self.rows.len()
            invariant
                i <= self.rows@.len(),
                out@.len() == i,
                forall|k: int| 0 <= k < i ==> same_bridge(#[trigger] out@[k], self.rows@[k]),
            decreases self.rows@.len() - i,
        {
            out.push(clone_bridge(&self.rows[i]));
            i = i + 1;
        }
        out
    }
}

} // verus!
