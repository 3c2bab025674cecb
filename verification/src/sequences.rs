//! Facts about sequences that the proofs about move lists share.

use vstd::prelude::*;

verus! {

/// Filtering a sequence with one more element at its end: the element is
/// kept, at the end, exactly if it passes.
pub proof fn lemma_filter_push<A>(s: Seq<A>, x: A, pred: spec_fn(A) -> bool)
    ensures
        s.push(x).filter(pred) == (if pred(x) {
            s.filter(pred).push(x)
        } else {
            s.filter(pred)
        }),
{
    reveal(Seq::filter);
    assert(s.push(x).drop_last() =~= s);
}

/// One more element of a prefix.
pub proof fn lemma_take_next<A>(s: Seq<A>, n: int)
    requires
        0 <= n < s.len(),
    ensures
        s.take(n + 1) == s.take(n).push(s[n]),
{
    assert(s.take(n + 1) =~= s.take(n).push(s[n]));
}

/// Filtering the prefix that is one element longer.
pub proof fn lemma_filter_take_next<A>(s: Seq<A>, n: int, pred: spec_fn(A) -> bool)
    requires
        0 <= n < s.len(),
    ensures
        s.take(n + 1).filter(pred) == (if pred(s[n]) {
            s.take(n).filter(pred).push(s[n])
        } else {
            s.take(n).filter(pred)
        }),
{
    lemma_take_next(s, n);
    lemma_filter_push(s.take(n), s[n], pred);
}

/// The whole sequence is its own longest prefix.
pub proof fn lemma_take_all<A>(s: Seq<A>)
    ensures
        s.take(s.len() as int) == s,
{
    assert(s.take(s.len() as int) =~= s);
}

/// A filtered sequence holds exactly the elements of the sequence that pass.
pub proof fn lemma_filter_contains<A>(s: Seq<A>, pred: spec_fn(A) -> bool, x: A)
    ensures
        s.filter(pred).contains(x) == (s.contains(x) && pred(x)),
    decreases s.len(),
{
    reveal(Seq::filter);
    if s.len() > 0 {
        let front = s.drop_last();
        lemma_filter_contains(front, pred, x);
        if s.filter(pred).contains(x) {
            let i = choose|i: int| 0 <= i < s.filter(pred).len() && s.filter(pred)[i] == x;
            if pred(s.last()) && i == front.filter(pred).len() {
                assert(s[s.len() - 1] == x);
            } else {
                assert(front.filter(pred)[i] == x);
                assert(front.filter(pred).contains(x));
                let j = choose|j: int| 0 <= j < front.len() && front[j] == x;
                assert(s[j] == x);
            }
        }
        if s.contains(x) && pred(x) {
            let j = choose|j: int| 0 <= j < s.len() && s[j] == x;
            if j == s.len() - 1 {
                let kept = front.filter(pred).push(s.last());
                assert(kept[kept.len() - 1] == x);
            } else {
                assert(front[j] == x);
                assert(front.contains(x));
                let i = choose|i: int|
                    0 <= i < front.filter(pred).len() && front.filter(pred)[i] == x;
                assert(s.filter(pred)[i] == x);
            }
        }
    }
}

/// A sequence and another together hold what either holds.
pub proof fn lemma_add_contains<A>(front: Seq<A>, back: Seq<A>, x: A)
    ensures
        (front + back).contains(x) == (front.contains(x) || back.contains(x)),
{
    let both = front + back;
    if both.contains(x) {
        let i = choose|i: int| 0 <= i < both.len() && both[i] == x;
        if i < front.len() {
            assert(front[i] == x);
        } else {
            assert(back[i - front.len()] == x);
        }
    }
    if front.contains(x) {
        let i = choose|i: int| 0 <= i < front.len() && front[i] == x;
        assert(both[i] == x);
    }
    if back.contains(x) {
        let i = choose|i: int| 0 <= i < back.len() && back[i] == x;
        assert(both[front.len() + i] == x);
    }
}

} // verus!
