//! Searching a sequence for the first element with a property.

use vstd::prelude::*;

verus! {

/// `i` is the index of the first element of `s` that satisfies `p`.
pub open spec fn is_first<A>(s: Seq<A>, p: spec_fn(A) -> bool, i: int) -> bool {
    &&& 0 <= i < s.len()
    &&& p(s[i])
    &&& forall|j: int| 0 <= j < i ==> !p(#[trigger] s[j])
}

/// Some element of `s` satisfies `p`.
pub open spec fn some_satisfies<A>(s: Seq<A>, p: spec_fn(A) -> bool) -> bool {
    exists|i: int| 0 <= i < s.len() && p(#[trigger] s[i])
}

/// The index of the first element of `s` that satisfies `p`, if any.
pub open spec fn first_index<A>(s: Seq<A>, p: spec_fn(A) -> bool) -> Option<int> {
    if some_satisfies(s, p) {
        Some(choose|i: int| is_first(s, p, i))
    } else {
        None
    }
}

/// A first match found by a search is the one `first_index` names.
pub proof fn lemma_first_index_is<A>(s: Seq<A>, p: spec_fn(A) -> bool, i: int)
    requires
        is_first(s, p, i),
    ensures
        first_index(s, p) == Some(i),
{
    assert(some_satisfies(s, p)) by {
        assert(p(s[i]));
    }
    let k = choose|k: int| is_first(s, p, k);
    assert(is_first(s, p, k));
    if k < i {
        assert(!p(s[k]));
    } else if i < k {
        assert(!p(s[i]));
    }
}

/// When nothing satisfies `p`, `first_index` is `None`.
pub proof fn lemma_first_index_none<A>(s: Seq<A>, p: spec_fn(A) -> bool)
    requires
        forall|j: int| 0 <= j < s.len() ==> !p(#[trigger] s[j]),
    ensures
        first_index(s, p) is None,
{
}

/// When something satisfies `p`, `first_index` names the first such element.
pub proof fn lemma_first_index_some<A>(s: Seq<A>, p: spec_fn(A) -> bool, i: int)
    requires
        0 <= i < s.len(),
        p(s[i]),
    ensures
        first_index(s, p) matches Some(k) && is_first(s, p, k) && k <= i,
    decreases i,
{
    if exists|j: int| 0 <= j < i && p(#[trigger] s[j]) {
        let j = choose|j: int| 0 <= j < i && p(#[trigger] s[j]);
        lemma_first_index_some(s, p, j);
    } else {
        assert(is_first(s, p, i));
        lemma_first_index_is(s, p, i);
    }
}

/// Two sequences on which two properties agree element by element have
/// their first matches at the same index.
pub proof fn lemma_first_index_agree<A, B>(s1: Seq<A>, p1: spec_fn(A) -> bool, s2: Seq<B>, p2: spec_fn(B) -> bool)
    requires
        s1.len() == s2.len(),
        forall|j: int| 0 <= j < s1.len() ==> p1(#[trigger] s1[j]) == p2(s2[j]),
    ensures
        first_index(s1, p1) == first_index(s2, p2),
{
    if some_satisfies(s1, p1) {
        let w = choose|i: int| 0 <= i < s1.len() && p1(#[trigger] s1[i]);
        lemma_first_index_some(s1, p1, w);
        let k = first_index(s1, p1)->0;
        assert(p2(s2[k]));
        assert forall|j: int| 0 <= j < k implies !p2(#[trigger] s2[j]) by {
            assert(!p1(s1[j]));
        }
        lemma_first_index_is(s2, p2, k);
    } else {
        assert forall|j: int| 0 <= j < s2.len() implies !p2(#[trigger] s2[j]) by {
            assert(!p1(s1[j]));
        }
    }
}

/// The first match in `s` followed by `x`.
pub proof fn lemma_first_index_push<A>(s: Seq<A>, p: spec_fn(A) -> bool, x: A)
    ensures
        first_index(s.push(x), p) == (match first_index(s, p) {
            Some(i) => Some(i),
            None => if p(x) { Some(s.len() as int) } else { None },
        }),
{
    let t = s.push(x);
    if some_satisfies(s, p) {
        let w = choose|i: int| 0 <= i < s.len() && p(#[trigger] s[i]);
        lemma_first_index_some(s, p, w);
        let k = first_index(s, p)->0;
        assert(t[k] == s[k]);
        assert forall|j: int| 0 <= j < k implies !p(#[trigger] t[j]) by {
            assert(t[j] == s[j]);
        }
        lemma_first_index_is(t, p, k);
    } else {
        assert forall|j: int| 0 <= j < s.len() implies !p(#[trigger] t[j]) by {
            assert(t[j] == s[j]);
            assert(!p(s[j]));
        }
        if p(x) {
            lemma_first_index_is(t, p, s.len() as int);
        } else {
            assert forall|j: int| 0 <= j < t.len() implies !p(#[trigger] t[j]) by {
                if j < s.len() {
                    assert(t[j] == s[j]);
                    assert(!p(s[j]));
                }
            }
        }
    }
}


// ─── Sums over sequences ────────────────────────────────────────────────────

/// The sum of `f` over the elements of `s`.
pub open spec fn sum_of<A>(s: Seq<A>, f: spec_fn(A) -> nat) -> nat
    decreases s.len(),
{
    if s.len() == 0 {
        0
    } else {
        sum_of(s.drop_last(), f) + f(s.last())
    }
}

pub proof fn lemma_sum_push<A>(s: Seq<A>, f: spec_fn(A) -> nat, x: A)
    ensures
        sum_of(s.push(x), f) == sum_of(s, f) + f(x),
{
    assert(s.push(x).drop_last() =~= s);
}

pub proof fn lemma_sum_update<A>(s: Seq<A>, f: spec_fn(A) -> nat, i: int, x: A)
    requires
        0 <= i < s.len(),
    ensures
        sum_of(s.update(i, x), f) + f(s[i]) == sum_of(s, f) + f(x),
    decreases s.len(),
{
    let t = s.update(i, x);
    if i == s.len() - 1 {
        assert(t.drop_last() =~= s.drop_last());
    } else {
        lemma_sum_update(s.drop_last(), f, i, x);
        assert(t.drop_last() =~= s.drop_last().update(i, x));
    }
}

pub proof fn lemma_sum_insert<A>(s: Seq<A>, f: spec_fn(A) -> nat, i: int, x: A)
    requires
        0 <= i <= s.len(),
    ensures
        sum_of(s.insert(i, x), f) == sum_of(s, f) + f(x),
    decreases s.len(),
{
    let t = s.insert(i, x);
    if i == s.len() {
        assert(t =~= s.push(x));
        lemma_sum_push(s, f, x);
    } else {
        lemma_sum_insert(s.drop_last(), f, i, x);
        assert(t.drop_last() =~= s.drop_last().insert(i, x));
    }
}

pub proof fn lemma_sum_remove<A>(s: Seq<A>, f: spec_fn(A) -> nat, i: int)
    requires
        0 <= i < s.len(),
    ensures
        sum_of(s.remove(i), f) + f(s[i]) == sum_of(s, f),
{
    lemma_sum_insert(s.remove(i), f, i, s[i]);
    assert(s.remove(i).insert(i, s[i]) =~= s);
}

pub proof fn lemma_sum_at_least<A>(s: Seq<A>, f: spec_fn(A) -> nat, i: int)
    requires
        0 <= i < s.len(),
    ensures
        sum_of(s, f) >= f(s[i]),
{
    lemma_sum_remove(s, f, i);
}

pub proof fn lemma_sum_at_least_two<A>(s: Seq<A>, f: spec_fn(A) -> nat, i: int, j: int)
    requires
        0 <= i < s.len(),
        0 <= j < s.len(),
        i != j,
    ensures
        sum_of(s, f) >= f(s[i]) + f(s[j]),
{
    lemma_sum_remove(s, f, i);
    let k = if j < i { j } else { j - 1 };
    assert(s.remove(i)[k] == s[j]);
    lemma_sum_at_least(s.remove(i), f, k);
}

} // verus!
