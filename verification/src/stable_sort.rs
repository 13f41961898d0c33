use vstd::prelude::*;

verus! {

/// Where an element with key `k` goes in `sorted`: after every element whose
/// key is not larger.
pub open spec fn insertion_point<T>(sorted: Seq<T>, key: spec_fn(T) -> int, k: int) -> int
    decreases sorted.len(),
{
    if sorted.len() == 0 {
        0
    } else if key(sorted[0]) > k {
        0
    } else {
        1 + insertion_point(sorted.drop_first(), key, k)
    }
}

/// `s` sorted by `key`, elements with equal keys keeping their order (what a
/// stable `sort_by_key` gives).
pub open spec fn stable_sort_by_key<T>(s: Seq<T>, key: spec_fn(T) -> int) -> Seq<T>
    decreases s.len(),
{
    if s.len() == 0 {
        s
    } else {
        let sorted = stable_sort_by_key(s.drop_last(), key);
        sorted.insert(insertion_point(sorted, key, key(s.last())), s.last())
    }
}

/// Keys do not decrease along `s`.
pub open spec fn sorted_by_key<T>(s: Seq<T>, key: spec_fn(T) -> int) -> bool {
    forall|i: int, j: int| 0 <= i <= j < s.len() ==> key(#[trigger] s[i]) <= key(#[trigger] s[j])
}

/// `insertion_point` lies in `0..=len`; elements before it have keys not
/// above `k`, and in a sorted sequence the elements from it on have keys
/// above `k`.
pub proof fn lemma_insertion_point<T>(sorted: Seq<T>, key: spec_fn(T) -> int, k: int)
    ensures
        0 <= insertion_point(sorted, key, k) <= sorted.len(),
        forall|i: int| 0 <= i < insertion_point(sorted, key, k) ==> key(#[trigger] sorted[i]) <= k,
        sorted_by_key(sorted, key) ==> forall|i: int|
            insertion_point(sorted, key, k) <= i < sorted.len() ==> key(#[trigger] sorted[i]) > k,
    decreases sorted.len(),
{
    if sorted.len() > 0 && key(sorted[0]) <= k {
        let rest = sorted.drop_first();
        lemma_insertion_point(rest, key, k);
        assert forall|i: int| 0 <= i < insertion_point(sorted, key, k) implies key(
            #[trigger] sorted[i],
        ) <= k by {
            if i > 0 {
                assert(sorted[i] == rest[i - 1]);
            }
        }
        if sorted_by_key(sorted, key) {
            assert(sorted_by_key(rest, key)) by {
                assert forall|a: int, b: int| 0 <= a <= b < rest.len() implies key(
                    #[trigger] rest[a],
                ) <= key(#[trigger] rest[b]) by {
                    assert(rest[a] == sorted[a + 1]);
                    assert(rest[b] == sorted[b + 1]);
                }
            }
            assert forall|i: int| insertion_point(sorted, key, k) <= i < sorted.len() implies key(
                #[trigger] sorted[i],
            ) > k by {
                assert(sorted[i] == rest[i - 1]);
            }
        }
    } else if sorted.len() > 0 {
        if sorted_by_key(sorted, key) {
            assert forall|i: int| 0 <= i < sorted.len() implies key(#[trigger] sorted[i]) > k by {
                assert(key(sorted[0]) <= key(sorted[i]));
            }
        }
    }
}

/// A stable sort keeps the length and the elements, and leaves keys in
/// order.
pub proof fn lemma_stable_sort_by_key<T>(s: Seq<T>, key: spec_fn(T) -> int)
    ensures
        stable_sort_by_key(s, key).len() == s.len(),
        stable_sort_by_key(s, key).to_multiset() == s.to_multiset(),
        sorted_by_key(stable_sort_by_key(s, key), key),
    decreases s.len(),
{
    broadcast use vstd::seq_lib::group_to_multiset_ensures;

    if s.len() > 0 {
        let sorted = stable_sort_by_key(s.drop_last(), key);
        let x = s.last();
        let p = insertion_point(sorted, key, key(x));
        lemma_stable_sort_by_key(s.drop_last(), key);
        lemma_insertion_point(sorted, key, key(x));
        let r = sorted.insert(p, x);
        assert(r.remove(p) =~= sorted);
        assert(r[p] == x);
        assert(r.to_multiset() =~= sorted.to_multiset().insert(x));
        assert(s.drop_last().push(x) =~= s);
        assert forall|i: int, j: int| 0 <= i <= j < r.len() implies key(#[trigger] r[i]) <= key(
            #[trigger] r[j],
        ) by {
            if i < p && j < p {
                assert(key(sorted[i]) <= key(sorted[j]));
            } else if i < p && j == p {
            } else if i < p {
                assert(key(sorted[i]) <= key(sorted[j - 1]));
            } else if i == p && j == p {
            } else if i == p {
                assert(key(sorted[j - 1]) > key(x));
            } else {
                assert(key(sorted[i - 1]) <= key(sorted[j - 1]));
            }
        }
    }
}

} // verus!
