//! Counting the rows of a table that satisfy a condition, and the facts
//! about those counts that the store's proofs use.
use vstd::prelude::*;

verus! {

/// The number of elements of `s` that satisfy `p`.
pub open spec fn count_where<T>(s: Seq<T>, p: spec_fn(T) -> bool) -> nat
    decreases s.len(),
{
    if s.len() == 0 {
        0
    } else {
        count_where(s.drop_last(), p) + if p(s.last()) {
            1nat
        } else {
            0nat
        }
    }
}

/// The elements of `s` that do not satisfy `p`, in their order.
pub open spec fn keep_unless<T>(s: Seq<T>, p: spec_fn(T) -> bool) -> Seq<T>
    decreases s.len(),
{
    if s.len() == 0 {
        s
    } else if p(s.last()) {
        keep_unless(s.drop_last(), p)
    } else {
        keep_unless(s.drop_last(), p).push(s.last())
    }
}

/// The index of an element that satisfies `p`; where exactly one does, it is
/// that one.
pub open spec fn index_where<T>(s: Seq<T>, p: spec_fn(T) -> bool) -> int {
    choose|j: int| 0 <= j < s.len() && p(s[j])
}

pub proof fn lemma_count_prefix_step<T>(s: Seq<T>, p: spec_fn(T) -> bool, i: int)
    requires
        0 <= i < s.len(),
    ensures
        count_where(s.subrange(0, i + 1), p) == count_where(s.subrange(0, i), p) + if p(s[i]) {
            1nat
        } else {
            0nat
        },
{
    assert(s.subrange(0, i + 1).drop_last() =~= s.subrange(0, i));
}

pub proof fn lemma_keep_prefix_step<T>(s: Seq<T>, p: spec_fn(T) -> bool, i: int)
    requires
        0 <= i < s.len(),
    ensures
        keep_unless(s.subrange(0, i + 1), p) == if p(s[i]) {
            keep_unless(s.subrange(0, i), p)
        } else {
            keep_unless(s.subrange(0, i), p).push(s[i])
        },
{
    assert(s.subrange(0, i + 1).drop_last() =~= s.subrange(0, i));
}

pub proof fn lemma_count_push<T>(s: Seq<T>, p: spec_fn(T) -> bool, x: T)
    ensures
        count_where(s.push(x), p) == count_where(s, p) + if p(x) {
            1nat
        } else {
            0nat
        },
{
    assert(s.push(x).drop_last() =~= s);
}

pub proof fn lemma_count_positive<T>(s: Seq<T>, p: spec_fn(T) -> bool, j: int)
    requires
        0 <= j < s.len(),
        p(s[j]),
    ensures
        count_where(s, p) >= 1,
    decreases s.len(),
{
    if j < s.len() - 1 {
        lemma_count_positive(s.drop_last(), p, j);
    }
}

/// A positive count has a satisfying element.
pub proof fn lemma_count_witness<T>(s: Seq<T>, p: spec_fn(T) -> bool)
    requires
        count_where(s, p) >= 1,
    ensures
        exists|j: int| 0 <= j < s.len() && p(#[trigger] s[j]),
    decreases s.len(),
{
    if p(s.last()) {
        assert(p(s[s.len() - 1]));
    } else {
        lemma_count_witness(s.drop_last(), p);
        let j = choose|j: int| 0 <= j < s.drop_last().len() && p(#[trigger] s.drop_last()[j]);
        assert(p(s[j]));
    }
}

/// Two distinct satisfying elements make a count of two or more.
pub proof fn lemma_count_two<T>(s: Seq<T>, p: spec_fn(T) -> bool, j: int, k: int)
    requires
        0 <= j < k < s.len(),
        p(s[j]),
        p(s[k]),
    ensures
        count_where(s, p) >= 2,
    decreases s.len(),
{
    if k == s.len() - 1 {
        lemma_count_positive(s.drop_last(), p, j);
    } else {
        lemma_count_two(s.drop_last(), p, j, k);
    }
}

/// Where exactly one element satisfies `p`, `index_where` finds it.
pub proof fn lemma_single_index<T>(s: Seq<T>, p: spec_fn(T) -> bool, j: int)
    requires
        count_where(s, p) == 1,
        0 <= j < s.len(),
        p(s[j]),
    ensures
        index_where(s, p) == j,
{
    let c = index_where(s, p);
    assert(0 <= c < s.len() && p(s[c]));
    if c < j {
        lemma_count_two(s, p, c, j);
    } else if j < c {
        lemma_count_two(s, p, j, c);
    }
}

/// Where exactly one element satisfies `p`, `index_where` names a valid
/// index holding such an element.
pub proof fn lemma_single_found<T>(s: Seq<T>, p: spec_fn(T) -> bool)
    requires
        count_where(s, p) == 1,
    ensures
        0 <= index_where(s, p) < s.len(),
        p(s[index_where(s, p)]),
{
    lemma_count_witness(s, p);
    let j = choose|j: int| 0 <= j < s.len() && p(#[trigger] s[j]);
    lemma_single_index(s, p, j);
}

/// Replacing an element by one that satisfies `p` exactly when the old one
/// did keeps the count.
pub proof fn lemma_count_update<T>(s: Seq<T>, p: spec_fn(T) -> bool, j: int, x: T)
    requires
        0 <= j < s.len(),
        p(x) == p(s[j]),
    ensures
        count_where(s.update(j, x), p) == count_where(s, p),
    decreases s.len(),
{
    assert(s.update(j, x).drop_last() =~= if j == s.len() - 1 {
        s.drop_last()
    } else {
        s.drop_last().update(j, x)
    });
    if j < s.len() - 1 {
        lemma_count_update(s.drop_last(), p, j, x);
    }
}

/// Removing an element takes its share from the count.
pub proof fn lemma_count_remove<T>(s: Seq<T>, p: spec_fn(T) -> bool, j: int)
    requires
        0 <= j < s.len(),
    ensures
        count_where(s.remove(j), p) + (if p(s[j]) {
            1nat
        } else {
            0nat
        }) == count_where(s, p),
    decreases s.len(),
{
    if j == s.len() - 1 {
        assert(s.remove(j) =~= s.drop_last());
    } else {
        assert(s.remove(j).drop_last() =~= s.drop_last().remove(j));
        lemma_count_remove(s.drop_last(), p, j);
    }
}

/// Where no element satisfies `p`, the count is zero.
pub proof fn lemma_count_none<T>(s: Seq<T>, p: spec_fn(T) -> bool)
    requires
        forall|j: int| 0 <= j < s.len() ==> !p(#[trigger] s[j]),
    ensures
        count_where(s, p) == 0,
    decreases s.len(),
{
    if s.len() > 0 {
        assert(!p(s[s.len() - 1]));
        lemma_count_none(s.drop_last(), p);
    }
}

/// Where no two elements both satisfy `p`, the count is at most one.
pub proof fn lemma_count_at_most_one<T>(s: Seq<T>, p: spec_fn(T) -> bool)
    requires
        forall|i: int, j: int| 0 <= i < j < s.len() && p(#[trigger] s[i]) ==> !p(#[trigger] s[j]),
    ensures
        count_where(s, p) <= 1,
    decreases s.len(),
{
    if s.len() > 0 {
        let k = s.len() - 1;
        if p(s[k]) {
            assert forall|j: int| 0 <= j < s.drop_last().len() implies !p(
                #[trigger] s.drop_last()[j],
            ) by {
                assert(s.drop_last()[j] == s[j]);
            }
            lemma_count_none(s.drop_last(), p);
        } else {
            lemma_count_at_most_one(s.drop_last(), p);
        }
    }
}

/// No element that survives `keep_unless` satisfies `p`.
pub proof fn lemma_keep_count<T>(s: Seq<T>, p: spec_fn(T) -> bool)
    ensures
        count_where(keep_unless(s, p), p) == 0,
    decreases s.len(),
{
    if s.len() > 0 {
        lemma_keep_count(s.drop_last(), p);
        if !p(s.last()) {
            lemma_count_push(keep_unless(s.drop_last(), p), p, s.last());
        }
    }
}

} // verus!
