//! A deterministic insertion sort at the specification level, generic in the
//! ordering relation, with the lemmas the forest builder needs: the sorted
//! result is a rearrangement of the input and is ordered throughout.

use vstd::prelude::*;

verus! {

/// An ordered sequence: every earlier element relates to every later one.
pub open spec fn sorted_by_leq<T>(leq: spec_fn(T, T) -> bool, s: Seq<T>) -> bool {
    forall|i: int, j: int| 0 <= i < j < s.len() ==> #[trigger] leq(s[i], s[j])
}

/// `x` placed into `s` immediately before the first element that does not
/// sort at or before `x`; elements equivalent to `x` stay in front of it.
pub open spec fn insert_by<T>(leq: spec_fn(T, T) -> bool, x: T, s: Seq<T>) -> Seq<T>
    decreases s.len(),
{
    if s.len() == 0 {
        seq![x]
    } else if !leq(s[0], x) {
        seq![x] + s
    } else {
        seq![s[0]] + insert_by(leq, x, s.drop_first())
    }
}

/// Insertion sort of `s` under `leq`, stable and deterministic.
pub open spec fn sort_by_ins<T>(leq: spec_fn(T, T) -> bool, s: Seq<T>) -> Seq<T>
    decreases s.len(),
{
    if s.len() == 0 {
        Seq::empty()
    } else {
        insert_by(leq, s.last(), sort_by_ins(leq, s.drop_last()))
    }
}

/// Where the insertion lands: if the first `k` elements sort at or before
/// `x` and the element at `k` (if any) does not, `x` ends up at index `k`.
pub proof fn lemma_insert_by_at<T>(leq: spec_fn(T, T) -> bool, x: T, s: Seq<T>, k: int)
    requires
        0 <= k <= s.len(),
        forall|j: int| 0 <= j < k ==> leq(s[j], x),
        k < s.len() ==> !leq(s[k], x),
    ensures
        insert_by(leq, x, s) =~= s.subrange(0, k) + seq![x] + s.skip(k),
    decreases k,
{
    if s.len() == 0 {
    } else if k == 0 {
    } else {
        lemma_insert_by_at(leq, x, s.drop_first(), k - 1);
        assert(s.drop_first() =~= s.skip(1));
        assert(s.skip(1).subrange(0, k - 1) =~= s.subrange(1, k));
        assert(s.skip(1).skip(k - 1) =~= s.skip(k));
        assert(seq![s[0]] + (s.subrange(1, k) + seq![x] + s.skip(k)) =~= s.subrange(0, k)
            + seq![x] + s.skip(k));
    }
}

/// Inserting grows the sequence by one, and adds no element but `x`.
pub proof fn lemma_insert_by_elems<T>(leq: spec_fn(T, T) -> bool, x: T, s: Seq<T>)
    ensures
        insert_by(leq, x, s).len() == s.len() + 1,
        forall|i: int|
            0 <= i < insert_by(leq, x, s).len() ==> #[trigger] insert_by(leq, x, s)[i] == x
                || s.contains(insert_by(leq, x, s)[i]),
    decreases s.len(),
{
    if s.len() == 0 {
    } else if !leq(s[0], x) {
    } else {
        lemma_insert_by_elems(leq, x, s.drop_first());
        assert forall|i: int| 0 <= i < insert_by(leq, x, s).len() implies #[trigger] insert_by(
            leq,
            x,
            s,
        )[i] == x || s.contains(insert_by(leq, x, s)[i]) by {
            if i > 0 {
                let rest = insert_by(leq, x, s.drop_first());
                assert(insert_by(leq, x, s)[i] == rest[i - 1]);
                if rest[i - 1] != x {
                    let j = choose|j: int| 0 <= j < s.drop_first().len() && s.drop_first()[j]
                        == rest[i - 1];
                    assert(s[j + 1] == rest[i - 1]);
                }
            }
        }
    }
}

/// Inserting into an ordered sequence keeps it ordered, provided `leq`
/// relates any two elements and is transitive.
pub proof fn lemma_insert_by_sorted<T>(leq: spec_fn(T, T) -> bool, x: T, s: Seq<T>)
    requires
        sorted_by_leq(leq, s),
        forall|a: T, b: T| #[trigger] leq(a, b) || #[trigger] leq(b, a),
        forall|a: T, b: T, c: T| #[trigger] leq(a, b) && #[trigger] leq(b, c) ==> leq(a, c),
    ensures
        sorted_by_leq(leq, insert_by(leq, x, s)),
    decreases s.len(),
{
    if s.len() == 0 {
    } else if !leq(s[0], x) {
        let r = seq![x] + s;
        assert forall|i: int, j: int| 0 <= i < j < r.len() implies #[trigger] leq(r[i], r[j]) by {
            if i == 0 {
                assert(leq(x, s[0]));
                if j > 1 {
                    assert(leq(s[0], s[j - 1]));
                }
            }
        }
    } else {
        let rest = s.drop_first();
        assert(sorted_by_leq(leq, rest)) by {
            assert forall|i: int, j: int| 0 <= i < j < rest.len() implies #[trigger] leq(
                rest[i],
                rest[j],
            ) by {
                assert(rest[i] == s[i + 1]);
                assert(rest[j] == s[j + 1]);
            }
        }
        lemma_insert_by_sorted(leq, x, rest);
        lemma_insert_by_elems(leq, x, rest);
        let inner = insert_by(leq, x, rest);
        let r = seq![s[0]] + inner;
        assert forall|i: int, j: int| 0 <= i < j < r.len() implies #[trigger] leq(r[i], r[j]) by {
            if i == 0 {
                assert(r[j] == inner[j - 1]);
                if inner[j - 1] == x {
                    assert(leq(s[0], x));
                } else {
                    let m = choose|m: int| 0 <= m < rest.len() && rest[m] == inner[j - 1];
                    assert(rest[m] == s[m + 1]);
                    if m + 1 > 0 {
                        assert(leq(s[0], s[m + 1]));
                    }
                }
            } else {
                assert(r[i] == inner[i - 1]);
                assert(r[j] == inner[j - 1]);
            }
        }
    }
}

/// The sorted sequence has the input's length and only the input's elements.
pub proof fn lemma_sort_by_ins_elems<T>(leq: spec_fn(T, T) -> bool, s: Seq<T>)
    ensures
        sort_by_ins(leq, s).len() == s.len(),
        forall|i: int|
            0 <= i < sort_by_ins(leq, s).len() ==> s.contains(
                #[trigger] sort_by_ins(leq, s)[i],
            ),
    decreases s.len(),
{
    if s.len() > 0 {
        let prefix = s.drop_last();
        lemma_sort_by_ins_elems(leq, prefix);
        lemma_insert_by_elems(leq, s.last(), sort_by_ins(leq, prefix));
        assert forall|i: int| 0 <= i < sort_by_ins(leq, s).len() implies s.contains(
            #[trigger] sort_by_ins(leq, s)[i],
        ) by {
            let e = sort_by_ins(leq, s)[i];
            if e == s.last() {
                assert(s[s.len() - 1] == e);
            } else {
                assert(sort_by_ins(leq, prefix).contains(e));
                let j = choose|j: int| 0 <= j < sort_by_ins(leq, prefix).len() && sort_by_ins(
                    leq,
                    prefix,
                )[j] == e;
                assert(prefix.contains(sort_by_ins(leq, prefix)[j]));
                let m = choose|m: int| 0 <= m < prefix.len() && prefix[m] == e;
                assert(s[m] == e);
            }
        }
    }
}

/// The sorted sequence is ordered, provided `leq` relates any two elements
/// and is transitive.
pub proof fn lemma_sort_by_ins_sorted<T>(leq: spec_fn(T, T) -> bool, s: Seq<T>)
    requires
        forall|a: T, b: T| #[trigger] leq(a, b) || #[trigger] leq(b, a),
        forall|a: T, b: T, c: T| #[trigger] leq(a, b) && #[trigger] leq(b, c) ==> leq(a, c),
    ensures
        sorted_by_leq(leq, sort_by_ins(leq, s)),
    decreases s.len(),
{
    if s.len() > 0 {
        lemma_sort_by_ins_sorted(leq, s.drop_last());
        lemma_insert_by_sorted(leq, s.last(), sort_by_ins(leq, s.drop_last()));
    }
}

} // verus!
