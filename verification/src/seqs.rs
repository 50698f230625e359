//! Sequences: the items that pass a test, and the first one.

use vstd::prelude::*;

verus! {

/// The items of `s` that pass `p`, in order.
pub open spec fn keep_where<T>(s: Seq<T>, p: spec_fn(T) -> bool) -> Seq<T>
    decreases s.len(),
{
    if s.len() == 0 {
        Seq::empty()
    } else if p(s.last()) {
        keep_where(s.drop_last(), p).push(s.last())
    } else {
        keep_where(s.drop_last(), p)
    }
}

/// `i` is the index of the first item of `s` that passes `p`.
pub open spec fn is_first<T>(s: Seq<T>, p: spec_fn(T) -> bool, i: int) -> bool {
    0 <= i < s.len() && p(s[i]) && forall|k: int| 0 <= k < i ==> !p(#[trigger] s[k])
}

/// The index of the first item of `s` that passes `p`.
pub open spec fn first_index<T>(s: Seq<T>, p: spec_fn(T) -> bool) -> Option<int> {
    if exists|i: int| is_first(s, p, i) {
        Some(choose|i: int| is_first(s, p, i))
    } else {
        None
    }
}

/// An index that passes the test with none passing before it is the first.
pub proof fn lemma_first_is<T>(s: Seq<T>, p: spec_fn(T) -> bool, i: int)
    requires
        is_first(s, p, i),
    ensures
        first_index(s, p) == Some(i),
{
    let j = choose|j: int| is_first(s, p, j);
    if j < i {
        assert(!p(s[j]));
    } else if i < j {
        assert(!p(s[i]));
    }
}

/// When some item passes the test, there is a first one, at or before it.
pub proof fn lemma_first_exists<T>(s: Seq<T>, p: spec_fn(T) -> bool, j: int)
    requires
        0 <= j < s.len(),
        p(s[j]),
    ensures
        first_index(s, p) matches Some(f) && is_first(s, p, f) && f <= j,
    decreases j,
{
    if exists|k: int| 0 <= k < j && p(#[trigger] s[k]) {
        let k = choose|k: int| 0 <= k < j && p(#[trigger] s[k]);
        lemma_first_exists(s, p, k);
    } else {
        assert(is_first(s, p, j));
        lemma_first_is(s, p, j);
    }
}

/// When nothing passes the test there is no first index.
pub proof fn lemma_first_none<T>(s: Seq<T>, p: spec_fn(T) -> bool)
    requires
        forall|k: int| 0 <= k < s.len() ==> !p(#[trigger] s[k]),
    ensures
        first_index(s, p) is None,
{
}

/// Keeping through one more item adds it exactly when it passes the test.
pub proof fn lemma_keep_step<T>(s: Seq<T>, p: spec_fn(T) -> bool, i: int)
    requires
        0 <= i < s.len(),
    ensures
        keep_where(s.take(i + 1), p) == if p(s[i]) { keep_where(s.take(i), p).push(s[i]) } else { keep_where(s.take(i), p) },
        keep_where(s.take(i), p).len() <= i,
{
    assert(s.take(i + 1).drop_last() =~= s.take(i));
    assert(s.take(i + 1).last() == s[i]);
    lemma_keep_len(s.take(i), p);
}

/// Keeping never lengthens a sequence.
pub proof fn lemma_keep_len<T>(s: Seq<T>, p: spec_fn(T) -> bool)
    ensures
        keep_where(s, p).len() <= s.len(),
    decreases s.len(),
{
    if s.len() > 0 {
        lemma_keep_len(s.drop_last(), p);
    }
}

/// An item is kept exactly when it occurs in the sequence and passes the test.
pub proof fn lemma_keep_contains<T>(s: Seq<T>, p: spec_fn(T) -> bool, x: T)
    ensures
        keep_where(s, p).contains(x) <==> s.contains(x) && p(x),
    decreases s.len(),
{
    if s.len() > 0 {
        lemma_keep_contains(s.drop_last(), p, x);
        let r = keep_where(s.drop_last(), p);
        if s.drop_last().contains(x) {
            let i = choose|i: int| 0 <= i < s.drop_last().len() && s.drop_last()[i] == x;
            assert(s[i] == x);
        }
        if s.contains(x) {
            let i = choose|i: int| 0 <= i < s.len() && s[i] == x;
            if i < s.len() - 1 {
                assert(s.drop_last()[i] == x);
            }
        }
        if p(s.last()) {
            let r2 = r.push(s.last());
            if r.contains(x) {
                let i = choose|i: int| 0 <= i < r.len() && r[i] == x;
                assert(r2[i] == x);
            }
            if r2.contains(x) {
                let i = choose|i: int| 0 <= i < r2.len() && r2[i] == x;
                if i < r.len() {
                    assert(r[i] == x);
                }
            }
            assert(r2[r.len() as int] == s.last());
        }
    }
}

/// How many items of `s` pass `p`.
pub open spec fn count_where<T>(s: Seq<T>, p: spec_fn(T) -> bool) -> nat
    decreases s.len(),
{
    if s.len() == 0 {
        0
    } else {
        count_where(s.drop_last(), p) + if p(s.last()) { 1nat } else { 0nat }
    }
}

/// Counting through one more item adds one exactly when it passes the test.
pub proof fn lemma_count_step<T>(s: Seq<T>, p: spec_fn(T) -> bool, i: int)
    requires
        0 <= i < s.len(),
    ensures
        count_where(s.take(i + 1), p) == count_where(s.take(i), p) + if p(s[i]) { 1nat } else { 0nat },
        count_where(s.take(i), p) <= i,
{
    assert(s.take(i + 1).drop_last() =~= s.take(i));
    assert(s.take(i + 1).last() == s[i]);
    lemma_count_le(s.take(i), p);
}

/// No more items pass a test than the sequence has.
pub proof fn lemma_count_le<T>(s: Seq<T>, p: spec_fn(T) -> bool)
    ensures
        count_where(s, p) <= s.len(),
    decreases s.len(),
{
    if s.len() > 0 {
        lemma_count_le(s.drop_last(), p);
    }
}

} // verus!
