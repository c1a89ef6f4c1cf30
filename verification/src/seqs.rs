//! Searching a sequence of keys for the first occurrence of a key.
use vstd::prelude::*;

verus! {

/// The index of the first key equal to `id` at or after position `i`.
pub open spec fn find_from(keys: Seq<Seq<char>>, id: Seq<char>, i: int) -> Option<int>
    decreases keys.len() - i,
{
    if i < 0 || i >= keys.len() {
        None
    } else if keys[i] == id {
        Some(i)
    } else {
        find_from(keys, id, i + 1)
    }
}

/// The index of the first key equal to `id`, as `iter().find(..)` picks it.
pub open spec fn find_key(keys: Seq<Seq<char>>, id: Seq<char>) -> Option<int> {
    find_from(keys, id, 0)
}

/// What `find_from` returns is the first match at or after `i`, or there is none.
pub proof fn lemma_find_from(keys: Seq<Seq<char>>, id: Seq<char>, i: int)
    requires
        0 <= i,
    ensures
        match find_from(keys, id, i) {
            Some(j) => i <= j < keys.len() && keys[j] == id && forall|k: int|
                i <= k < j ==> keys[k] != id,
            None => forall|k: int| i <= k < keys.len() ==> keys[k] != id,
        },
    decreases keys.len() - i,
{
    if i < keys.len() && keys[i] != id {
        lemma_find_from(keys, id, i + 1);
    }
}

/// What `find_key` returns is the first match, or there is none.
pub proof fn lemma_find_key(keys: Seq<Seq<char>>, id: Seq<char>)
    ensures
        match find_key(keys, id) {
            Some(j) => 0 <= j < keys.len() && keys[j] == id && forall|k: int|
                0 <= k < j ==> keys[k] != id,
            None => forall|k: int| 0 <= k < keys.len() ==> keys[k] != id,
        },
{
    lemma_find_from(keys, id, 0);
}

/// A key occurs in `keys` exactly when `find_key` finds it.
pub proof fn lemma_find_key_contains(keys: Seq<Seq<char>>, id: Seq<char>)
    ensures
        find_key(keys, id) is Some <==> keys.contains(id),
{
    lemma_find_key(keys, id);
    if keys.contains(id) {
        let j = choose|j: int| 0 <= j < keys.len() && keys[j] == id;
        assert(keys[j] == id);
    }
}

/// Filtering one element more of a prefix adds that element when it passes.
pub proof fn lemma_filter_step<A>(s: Seq<A>, i: int, pred: spec_fn(A) -> bool)
    requires
        0 <= i < s.len(),
    ensures
        s.take(i + 1).filter(pred) == (if pred(s[i]) {
            s.take(i).filter(pred).push(s[i])
        } else {
            s.take(i).filter(pred)
        }),
{
    reveal_with_fuel(Seq::<_>::filter, 1);
    assert(s.take(i + 1).drop_last() =~= s.take(i));
    assert(s.take(i + 1).last() == s[i]);
}

/// `filter_map` over one element more of a prefix adds that element's image
/// when there is one.
pub proof fn lemma_filter_map_step<A, B>(s: Seq<A>, i: int, f: spec_fn(A) -> Option<B>)
    requires
        0 <= i < s.len(),
    ensures
        s.take(i + 1).filter_map(f) == (match f(s[i]) {
            Some(x) => s.take(i).filter_map(f).push(x),
            None => s.take(i).filter_map(f),
        }),
{
    reveal_with_fuel(Seq::<_>::filter_map, 1);
    assert(s.take(i + 1).drop_last() =~= s.take(i));
    assert(s.take(i + 1).last() == s[i]);
    match f(s[i]) {
        Some(x) => {
            assert(s.take(i).filter_map(f) + seq![x] =~= s.take(i).filter_map(f).push(x));
        },
        None => {},
    }
}

/// A sequence with one element pushed contains what it contained and that element.
pub proof fn lemma_push_contains<A>(s: Seq<A>, a: A, x: A)
    ensures
        s.push(a).contains(x) <==> (s.contains(x) || x == a),
{
    if s.push(a).contains(x) {
        let j = choose|j: int| 0 <= j < s.push(a).len() && s.push(a)[j] == x;
        if j < s.len() {
            assert(s[j] == x);
        }
    }
    if s.contains(x) {
        let j = choose|j: int| 0 <= j < s.len() && s[j] == x;
        assert(s.push(a)[j] == x);
    }
    if x == a {
        assert(s.push(a)[s.len() as int] == x);
    }
}


/// The index of the first element at or after `i` that satisfies `p`.
pub open spec fn first_where<A>(s: Seq<A>, p: spec_fn(A) -> bool, i: int) -> Option<int>
    decreases s.len() - i,
{
    if i < 0 || i >= s.len() {
        None
    } else if p(s[i]) {
        Some(i)
    } else {
        first_where(s, p, i + 1)
    }
}


/// What `first_where` returns satisfies `p` and comes first at or after `i`.
pub proof fn lemma_first_where<A>(s: Seq<A>, p: spec_fn(A) -> bool, i: int)
    requires
        0 <= i,
    ensures
        match first_where(s, p, i) {
            Some(j) => i <= j < s.len() && p(s[j]) && forall|k: int| i <= k < j ==> !p(#[trigger] s[k]),
            None => forall|k: int| i <= k < s.len() ==> !p(#[trigger] s[k]),
        },
    decreases s.len() - i,
{
    if i < s.len() && !p(s[i]) {
        lemma_first_where(s, p, i + 1);
    }
}

/// The first element at or after `i` that satisfies `p` is at `j` when `j`
/// satisfies it and nothing between `i` and `j` does.
pub proof fn lemma_first_where_at<A>(s: Seq<A>, p: spec_fn(A) -> bool, i: int, j: int)
    requires
        0 <= i <= j < s.len(),
        p(s[j]),
        forall|k: int| i <= k < j ==> !p(#[trigger] s[k]),
    ensures
        first_where(s, p, i) == Some(j),
    decreases j - i,
{
    if i < j {
        lemma_first_where_at(s, p, i + 1, j);
    }
}

} // verus!
