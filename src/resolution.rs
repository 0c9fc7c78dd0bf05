//! The life of a handle's cached result, as a pure state machine.
//!
//! A handle is pending while its cache is `None` and resolved once it holds
//! `Some(v)`. Each poll or wait hands the machine what the channel gave back
//! (`None` when nothing came), and the cache moves by [`next_cached`].
use vstd::prelude::*;

verus! {

/// One step of the machine: a resolved cache never changes; a pending cache
/// takes whatever was received.
pub open spec fn next_cached<F>(cached: Option<F>, received: Option<F>) -> Option<F> {
    if cached is Some {
        cached
    } else {
        received
    }
}

/// `after` is a cache that one poll or wait can leave behind when it starts
/// from `before`, whatever it received.
pub open spec fn is_successor<F>(before: Option<F>, after: Option<F>) -> bool {
    exists|received: Option<F>| after == #[trigger] next_cached(before, received)
}

/// Each entry of `history` is what one poll or wait left of the one before.
pub open spec fn is_history<F>(history: Seq<Option<F>>) -> bool {
    forall|k: int| 0 <= k < history.len() - 1 ==> is_successor(#[trigger] history[k], history[k + 1])
}

/// Along any history of polls and waits on one handle, a value once shown is
/// shown by every later call: the handle is resolved once and for all.
pub proof fn lemma_history_keeps_value<F>(history: Seq<Option<F>>, i: int, j: int)
    requires
        is_history(history),
        0 <= i <= j < history.len(),
        history[i] is Some,
    ensures
        history[j] == history[i],
    decreases j - i,
{
    if i < j {
        lemma_history_keeps_value(history, i, j - 1);
        assert(is_successor(history[j - 1], history[j]));
    }
}

/// The cache after a run of polls and waits that received `receipts`, in order.
pub open spec fn after_receipts<F>(cached: Option<F>, receipts: Seq<Option<F>>) -> Option<F>
    decreases receipts.len(),
{
    if receipts.len() == 0 {
        cached
    } else {
        after_receipts(next_cached(cached, receipts[0]), receipts.drop_first())
    }
}

/// The first value in `receipts`, if any came at all.
pub open spec fn first_received<F>(receipts: Seq<Option<F>>) -> Option<F>
    decreases receipts.len(),
{
    if receipts.len() == 0 {
        None
    } else if receipts[0] is Some {
        receipts[0]
    } else {
        first_received(receipts.drop_first())
    }
}

/// Once resolved, a handle keeps its value through any number of later polls
/// and waits, whatever they receive.
pub proof fn lemma_resolved_is_final<F>(value: F, receipts: Seq<Option<F>>)
    ensures
        after_receipts(Some(value), receipts) == Some(value),
    decreases receipts.len(),
{
    if receipts.len() > 0 {
        lemma_resolved_is_final(value, receipts.drop_first());
    }
}

/// A pending handle, after any run of polls and waits, holds exactly the first
/// value that any of them received: polls and waits that came back empty (a
/// timeout included) leave it pending, and nothing but a received value is
/// ever observed.
pub proof fn lemma_pending_takes_first_value<F>(receipts: Seq<Option<F>>)
    ensures
        after_receipts(None, receipts) == first_received(receipts),
    decreases receipts.len(),
{
    if receipts.len() > 0 {
        if let Some(v) = receipts[0] {
            lemma_resolved_is_final(v, receipts.drop_first());
        } else {
            lemma_pending_takes_first_value(receipts.drop_first());
        }
    }
}

} // verus!
