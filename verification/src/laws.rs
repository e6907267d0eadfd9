use vstd::prelude::*;

use crate::state::AtomicBorrow;
use crate::state::lemma_projections_determine_state;
use crate::state::lemma_with_shared;

verus! {

/// One step of the shared-only discipline: with `acquire` true, a
/// successful shared acquisition, as the `ensures` of
/// [`AtomicBorrow::borrow`] describes one; otherwise a shared release, as
/// the `ensures` of [`AtomicBorrow::release`] describes one.
pub open spec fn shared_step(pre: AtomicBorrow, post: AtomicBorrow, acquire: bool) -> bool {
    if acquire {
        &&& !pre.unique_held()
        &&& !post.unique_held()
        &&& post.shared() == pre.shared() + 1
    } else {
        &&& pre.shared() >= 1
        &&& !pre.unique_held()
        &&& !post.unique_held()
        &&& post.shared() == pre.shared() - 1
    }
}

/// How many of the steps in `ops` are acquisitions.
pub open spec fn acquisitions(ops: Seq<bool>) -> int
    decreases ops.len(),
{
    if ops.len() == 0 {
        0
    } else {
        acquisitions(ops.drop_last()) + if ops.last() {
            1int
        } else {
            0int
        }
    }
}

/// How many of the steps in `ops` are releases.
pub open spec fn releases(ops: Seq<bool>) -> int
    decreases ops.len(),
{
    if ops.len() == 0 {
        0
    } else {
        releases(ops.drop_last()) + if ops.last() {
            0int
        } else {
            1int
        }
    }
}

/// Law of shared-only traces: along any sequence of successful shared
/// acquisitions and shared releases from the free state, with no
/// exclusive acquisition interleaved, the shared count equals the number
/// of acquisitions minus the number of releases, and the state counts as
/// borrowed exactly when more was acquired than released.
pub proof fn lemma_shared_only_trace(states: Seq<AtomicBorrow>, ops: Seq<bool>)
    requires
        states.len() == ops.len() + 1,
        states[0].is_free(),
        forall|i: int| 0 <= i < ops.len() ==> shared_step(states[i], states[i + 1], ops[i]),
    ensures
        acquisitions(ops) >= releases(ops),
        states.last().shared() == acquisitions(ops) - releases(ops),
        states.last().borrowed() <==> acquisitions(ops) > releases(ops),
    decreases ops.len(),
{
    if ops.len() == 0 {
        assert(states.last() == states[0]);
    } else {
        let n = ops.len() as int;
        let head_states = states.drop_last();
        let head_ops = ops.drop_last();
        assert(forall|i: int|
            0 <= i < head_ops.len() ==> shared_step(
                head_states[i],
                head_states[i + 1],
                head_ops[i],
            ));
        lemma_shared_only_trace(head_states, head_ops);
        assert(shared_step(states[n - 1], states[n], ops[n - 1]));
    }
}

/// Round-trip law for shared borrows: an acquisition that took the state
/// from `pre` to `mid`, followed by a release that took it from `mid` to
/// `post`, restores the exact prior bit pattern.
pub proof fn lemma_shared_round_trip(pre: AtomicBorrow, mid: AtomicBorrow, post: AtomicBorrow)
    requires
        shared_step(pre, mid, true),
        shared_step(mid, post, false),
    ensures
        post == pre,
{
    lemma_projections_determine_state(post, pre);
}

/// Round-trip law for exclusive borrows: an exclusive acquisition on the
/// free state `pre` that produced `mid`, followed by an exclusive release
/// that produced `post`, restores the exact prior bit pattern, as the
/// `ensures` of [`AtomicBorrow::borrow_mut`] and
/// [`AtomicBorrow::release_mut`] describe the two.
pub proof fn lemma_unique_round_trip(pre: AtomicBorrow, mid: AtomicBorrow, post: AtomicBorrow)
    requires
        pre.is_free(),
        mid.unique_held(),
        mid.shared() == 0,
        post.is_free(),
    ensures
        post == pre,
{
    lemma_projections_determine_state(post, pre);
}

/// Boundary law: shared acquisitions alone reach every count up to the
/// capacity of the word. The returned trace runs `k` successful
/// acquisitions from the free state and ends with `k` outstanding shared
/// borrows; at the capacity itself, the precondition of
/// [`AtomicBorrow::borrow`] admits no further acquisition.
pub proof fn lemma_acquisitions_reach_capacity(k: usize) -> (states: Seq<AtomicBorrow>)
    requires
        k <= AtomicBorrow::SHARED_MASK,
    ensures
        states.len() == k + 1,
        states[0].is_free(),
        forall|i: int| 0 <= i < k ==> #[trigger] shared_step(states[i], states[i + 1], true),
        states.last().shared() == k,
{
    let states = Seq::new((k + 1) as nat, |i: int| AtomicBorrow::with_shared(i as usize));
    assert forall|i: int| 0 <= i <= k implies (#[trigger] states[i]).shared() == i
        && !states[i].unique_held() by {
        lemma_with_shared(i as usize);
    }
    states
}

} // verus!
