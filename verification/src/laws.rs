//! Laws relating the pool operations across whole call sequences.
//!
//! The contracts in [`crate::pool`] and [`crate::guard`] describe one call
//! each, over the pool's view (a sequence in stack order). The proof
//! functions here chain those descriptions: what a run of acquisitions hands
//! out, and what a run of returns restores.

use vstd::prelude::*;

verus! {

/// The pool's view after the values `vs` are attached (or released from
/// pool-associated handles) one by one, in order, onto a pool whose view
/// was `s`: each step is one `push`, as the contract of `attach` states.
pub open spec fn refill<T>(s: Seq<T>, vs: Seq<T>) -> Seq<T>
    decreases vs.len(),
{
    if vs.len() == 0 {
        s
    } else {
        refill(s.push(vs[0]), vs.drop_first())
    }
}

/// The values that repeated `try_pull` hands out, in order, when a pool whose
/// view is `s` is drained until empty: each step yields `last()` and leaves
/// `drop_last()`, as the contract of `try_pull` states.
pub open spec fn handed_out<T>(s: Seq<T>) -> Seq<T>
    decreases s.len(),
{
    if s.len() == 0 {
        Seq::empty()
    } else {
        seq![s.last()] + handed_out(s.drop_last())
    }
}

/// Law: draining a pool of `n` idle values succeeds exactly `n` times. After
/// `i` successful acquisitions the pool holds the first `n - i` of its
/// original values; while `i < n` that is nonempty, so the next acquisition
/// succeeds, yields the value at position `n - 1 - i`, and leaves the first
/// `n - i - 1` values; and a pool that has given out all `n` values is empty,
/// so the acquisition after that comes back with nothing.
pub proof fn lemma_drain_step<T>(s: Seq<T>, i: int)
    requires
        0 <= i < s.len(),
    ensures
        s.take(s.len() - i).len() > 0,
        s.take(s.len() - i).last() == s[s.len() - 1 - i],
        s.take(s.len() - i).drop_last() == s.take(s.len() - i - 1),
        s.take(0).len() == 0,
{
    assert(s.take(s.len() - i).drop_last() =~= s.take(s.len() - i - 1));
}

/// Law: returning values grows the pool by exactly their number — releasing
/// the values `vs` in order onto a pool whose view is `s` leaves `s + vs`.
/// In particular, refilling an emptied pool with the same number of values
/// it was constructed with brings `len()` back to that number.
pub proof fn lemma_refill<T>(s: Seq<T>, vs: Seq<T>)
    ensures
        refill(s, vs) == s + vs,
        refill(s, vs).len() == s.len() + vs.len(),
    decreases vs.len(),
{
    if vs.len() == 0 {
        assert(refill(s, vs) =~= s + vs);
    } else {
        lemma_refill(s.push(vs[0]), vs.drop_first());
        assert(s.push(vs[0]) + vs.drop_first() =~= s + vs);
    }
}

/// Law: detach followed by re-attach round-trips. Attaching a value `v` onto
/// a pool whose view is `s` grows the size by one, and the next acquisition
/// retrieves exactly `v`, leaving the pool as it was before the attach.
pub proof fn lemma_reattach_roundtrip<T>(s: Seq<T>, v: T)
    ensures
        s.push(v).len() == s.len() + 1,
        s.push(v).last() == v,
        s.push(v).drop_last() == s,
{
    assert(s.push(v).drop_last() =~= s);
}

/// Law: a detached value is gone from pool accounting for good. The
/// acquisition that handed it out left the pool holding the other values —
/// one fewer than before, each at its old position — and `detach` itself
/// takes no pool and so changes none: only an explicit `attach` (or the
/// release of a pool-associated handle) ever grows a pool's view again.
pub proof fn lemma_detach_removes_for_good<T>(s: Seq<T>)
    requires
        s.len() > 0,
    ensures
        s.drop_last().len() == s.len() - 1,
        forall|i: int| 0 <= i < s.len() - 1 ==> #[trigger] s.drop_last()[i] == s[i],
{
}

/// Law: no value is handed out twice. Draining a pool of `n` idle values
/// hands out exactly `n` values, the `i`-th handed-out value is the one that
/// sat at position `n - 1 - i` — each idle value is given out exactly once —
/// and the handed-out values are, as a multiset, exactly the idle values.
pub proof fn lemma_handed_out_exact<T>(s: Seq<T>)
    ensures
        handed_out(s).len() == s.len(),
        forall|i: int| 0 <= i < s.len() ==> handed_out(s)[i] == s[s.len() - 1 - i],
        handed_out(s).to_multiset() == s.to_multiset(),
    decreases s.len(),
{
    broadcast use vstd::seq_lib::group_to_multiset_ensures;

    if s.len() == 0 {
        assert(handed_out(s).to_multiset() =~= s.to_multiset());
    } else {
        let rest = s.drop_last();
        lemma_handed_out_exact(rest);
        assert forall|i: int| 0 <= i < s.len() implies handed_out(s)[i] == s[s.len() - 1 - i] by {
            if i > 0 {
                assert(handed_out(s)[i] == handed_out(rest)[i - 1]);
                assert(rest[rest.len() - 1 - (i - 1)] == s[s.len() - 1 - i]);
            }
        }
        assert(handed_out(s) =~= s.reverse());
        s.lemma_reverse_to_multiset();
    }
}

} // verus!
