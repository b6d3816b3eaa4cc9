//! Laws of custody over whole runs of requests.
use crate::custody::{CustodyView, Outcome, Request};
use std::any::TypeId;
use vstd::prelude::*;

verus! {

/// The outcome hands the allocation on: to a caller, or to the destructor.
pub open spec fn is_handoff(o: Outcome) -> bool {
    o == Outcome::Transfer || o == Outcome::Reclaim
}

pub open spec fn handoff_count(o: Outcome) -> nat {
    if is_handoff(o) {
        1
    } else {
        0
    }
}

pub open spec fn held_count(c: CustodyView) -> nat {
    if c.held {
        1
    } else {
        0
    }
}

/// The state after answering `reqs` in order, starting from `c`, and how many
/// of the answers handed the allocation on.
pub open spec fn run(c: CustodyView, reqs: Seq<Request>) -> (CustodyView, nat)
    decreases reqs.len(),
{
    if reqs.len() == 0 {
        (c, 0)
    } else {
        let (before, n) = run(c, reqs.drop_last());
        let (after, o) = before.next(reqs.last());
        (after, n + handoff_count(o))
    }
}

/// Ownership is conserved: along any run, the allocation is either still held
/// or has been handed on exactly once, and never both; the type tag never
/// changes.
pub proof fn lemma_ownership_conserved(c: CustodyView, reqs: Seq<Request>)
    ensures
        run(c, reqs).1 + held_count(run(c, reqs).0) == held_count(c),
        run(c, reqs).0.tag == c.tag,
    decreases reqs.len(),
{
    if reqs.len() > 0 {
        lemma_ownership_conserved(c, reqs.drop_last());
    }
}

/// A freshly erased value whose container reaches the end of its life is handed
/// on exactly once, whatever borrows, unwraps and failed unwraps came before:
/// either it was unwrapped and the end of life reclaims nothing, or the end of
/// life reclaims it.
pub proof fn lemma_single_destruction(tag: TypeId, reqs: Seq<Request>)
    requires
        reqs.len() > 0,
        reqs.last() == Request::Release,
    ensures
        ({
            let fresh = CustodyView::fresh(tag);
            &&& run(fresh, reqs).1 == 1
            &&& !run(fresh, reqs).0.held
        }),
{
    let fresh = CustodyView::fresh(tag);
    lemma_ownership_conserved(fresh, reqs);
    lemma_ownership_conserved(fresh, reqs.drop_last());
}

/// A request for a type other than the erased one is refused and leaves the
/// custody as it was, for a borrow and for an unwrap alike.
pub proof fn lemma_mismatch_denied(c: CustodyView, t: TypeId)
    requires
        c.tag != t,
    ensures
        c.next(Request::Inspect(t)) == (c, Outcome::Deny),
        c.next(Request::Take(t)) == (c, Outcome::Deny),
{
}

/// A value still held is lent out as the type it was erased from.
pub proof fn lemma_own_type_granted(c: CustodyView)
    requires
        c.held,
    ensures
        c.next(Request::Inspect(c.tag)) == (c, Outcome::Grant),
{
}

/// After a successful unwrap nothing that follows, the end of life included,
/// hands the allocation on again.
pub proof fn lemma_unwrap_disarms(c: CustodyView, t: TypeId, later: Seq<Request>)
    requires
        c.admits(t),
    ensures
        c.next(Request::Take(t)).1 == Outcome::Transfer,
        !c.next(Request::Take(t)).0.held,
        c.next(Request::Take(t)).0.next(Request::Release).1 == Outcome::Idle,
        run(c.next(Request::Take(t)).0, later).1 == 0,
{
    lemma_ownership_conserved(c.next(Request::Take(t)).0, later);
}

/// Where the type matches, the checked and the unchecked unwrap answer alike
/// and leave the same state.
pub proof fn lemma_unchecked_parity(c: CustodyView, t: TypeId)
    requires
        c.admits(t),
    ensures
        c.next(Request::Take(t)) == c.next(Request::TakeUnchecked),
{
}

} // verus!
