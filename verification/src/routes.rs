//! Route assembly: candidate bridges are fetched for an authenticated
//! caller, each is handed to the path-construction collaborator, and the
//! outcomes are folded into a race set. Per-candidate failures are excluded,
//! never fatal: zero successful conversions is still a successful call.
use vstd::prelude::*;

use crate::types::{RouteCandidate, RouteSet};

verus! {

/// The successful outcomes, in order; failed conversions vanish.
pub open spec fn flatten_somes(s: Seq<Option<RouteCandidate>>) -> Seq<RouteCandidate>
    decreases s.len(),
{
    if s.len() == 0 {
        Seq::empty()
    } else {
        flatten_somes(s.drop_last()) + match s.last() {
            Some(c) => seq![c],
            None => Seq::empty(),
        }
    }
}

/// Folds per-bridge conversion outcomes into a race set: every successful
/// conversion is kept, every failure is dropped, and the call as a whole
/// never fails.
pub fn assemble_route_set(outcomes: Vec<Option<RouteCandidate>>) -> (r: RouteSet)
    ensures
        r.candidates@ == flatten_somes(outcomes@),
{
    let mut rest = outcomes;
    let mut acc: Vec<RouteCandidate> = Vec::new();
    while rest.len() > 0
        invariant
            flatten_somes(rest@) + acc@ == flatten_somes(outcomes@),
        decreases rest@.len(),
    {
        let ghost prev = rest@;
        let ghost acc_prev = acc@;
        let opt = rest.pop().unwrap();
        proof {
            assert(prev.drop_last() =~= rest@);
            assert(flatten_somes(prev) == flatten_somes(rest@) + match opt {
                Some(c) => seq![c],
                None => Seq::<RouteCandidate>::empty(),
            });
        }
        match opt {
            Some(c) => {
                acc.insert(0, c);
                proof {
                    assert(acc@ =~= seq![c] + acc_prev);
                    assert(flatten_somes(rest@) + acc@ =~= (flatten_somes(rest@) + seq![c])
                        + acc_prev);
                    assert(flatten_somes(rest@) + seq![c] =~= flatten_somes(prev));
                }
            },
            None => {
                proof {
                    assert(flatten_somes(prev) =~= flatten_somes(rest@));
                }
            },
        }
    }
    assert(flatten_somes(rest@) =~= Seq::<RouteCandidate>::empty());
    assert(acc@ =~= flatten_somes(outcomes@));
    RouteSet { candidates: acc }
}

/// When every candidate conversion fails, the assembled race set is empty,
/// and assembling it is still a successful call.
pub proof fn lemma_all_failures_empty(s: Seq<Option<RouteCandidate>>)
    requires
        forall|i: int| 0 <= i < s.len() ==> s[i] is None,
    ensures
        flatten_somes(s).len() == 0,
    decreases s.len(),
{
    if s.len() > 0 {
        assert(s.last() is None);
        lemma_all_failures_empty(s.drop_last());
    }
}

} // verus!
