//! Finding the first item of a sequence that meets a condition, and counting
//! those that do.

use vstd::prelude::*;

verus! {

/// The position of the first item that meets `wanted`, or -1 where none
/// does.
pub open spec fn first_where<T>(s: Seq<T>, wanted: spec_fn(T) -> bool) -> int
    decreases s.len(),
{
    if s.len() == 0 {
        -1
    } else if wanted(s[0]) {
        0
    } else {
        let rest = first_where(s.drop_first(), wanted);
        if rest < 0 {
            -1
        } else {
            rest + 1
        }
    }
}

/// What `first_where` finds: an item that meets the condition, with none
/// before it that does; or -1, and then no item does.
pub proof fn lemma_first_where<T>(s: Seq<T>, wanted: spec_fn(T) -> bool)
    ensures
        -1 <= first_where(s, wanted) < s.len(),
        first_where(s, wanted) >= 0 ==> wanted(s[first_where(s, wanted)]),
        forall|i: int|
            0 <= i < s.len() && (first_where(s, wanted) < 0 || i < first_where(s, wanted))
                ==> !wanted(#[trigger] s[i]),
    decreases s.len(),
{
    if s.len() > 0 && !wanted(s[0]) {
        let rest = s.drop_first();
        lemma_first_where(rest, wanted);
        assert forall|i: int|
            0 <= i < s.len() && (first_where(s, wanted) < 0 || i < first_where(
                s,
                wanted,
            )) implies !wanted(#[trigger] s[i]) by {
            if i > 0 {
                assert(s[i] == rest[i - 1]);
            }
        }
    }
}

/// An item that meets the condition, with none before it that does, is the
/// one that `first_where` finds.
pub proof fn lemma_first_where_at<T>(s: Seq<T>, wanted: spec_fn(T) -> bool, i: int)
    requires
        0 <= i < s.len(),
        wanted(s[i]),
        forall|j: int| 0 <= j < i ==> !wanted(#[trigger] s[j]),
    ensures
        first_where(s, wanted) == i,
{
    lemma_first_where(s, wanted);
}

/// Where no item meets the condition, `first_where` finds none.
pub proof fn lemma_first_where_none<T>(s: Seq<T>, wanted: spec_fn(T) -> bool)
    requires
        forall|j: int| 0 <= j < s.len() ==> !wanted(#[trigger] s[j]),
    ensures
        first_where(s, wanted) == -1,
{
    lemma_first_where(s, wanted);
}

/// How many items meet `wanted`.
pub open spec fn count_where<T>(s: Seq<T>, wanted: spec_fn(T) -> bool) -> nat
    decreases s.len(),
{
    if s.len() == 0 {
        0
    } else {
        count_where(s.drop_last(), wanted) + if wanted(s.last()) {
            1nat
        } else {
            0nat
        }
    }
}

/// No more items meet a condition than there are items.
pub proof fn lemma_count_where_bound<T>(s: Seq<T>, wanted: spec_fn(T) -> bool)
    ensures
        count_where(s, wanted) <= s.len(),
    decreases s.len(),
{
    if s.len() > 0 {
        lemma_count_where_bound(s.drop_last(), wanted);
    }
}

/// The count over the first `n + 1` items, from the count over the first `n`.
pub proof fn lemma_count_where_step<T>(s: Seq<T>, wanted: spec_fn(T) -> bool, n: int)
    requires
        0 <= n < s.len(),
    ensures
        count_where(s.subrange(0, n + 1), wanted) == count_where(s.subrange(0, n), wanted) + if wanted(
            s[n],
        ) {
            1nat
        } else {
            0nat
        },
{
    assert(s.subrange(0, n + 1).drop_last() =~= s.subrange(0, n));
}

/// Changing one item changes the count by what that item adds to it.
pub proof fn lemma_count_where_update<T>(s: Seq<T>, wanted: spec_fn(T) -> bool, i: int, item: T)
    requires
        0 <= i < s.len(),
    ensures
        count_where(s.update(i, item), wanted) + (if wanted(s[i]) {
            1nat
        } else {
            0nat
        }) == count_where(s, wanted) + if wanted(item) {
            1nat
        } else {
            0nat
        },
    decreases s.len(),
{
    if i == s.len() - 1 {
        assert(s.update(i, item).drop_last() =~= s.drop_last());
    } else {
        lemma_count_where_update(s.drop_last(), wanted, i, item);
        assert(s.update(i, item).drop_last() =~= s.drop_last().update(i, item));
    }
}

/// Adding an item at the end adds what that item counts.
pub proof fn lemma_count_where_push<T>(s: Seq<T>, wanted: spec_fn(T) -> bool, item: T)
    ensures
        count_where(s.push(item), wanted) == count_where(s, wanted) + if wanted(item) {
            1nat
        } else {
            0nat
        },
{
    assert(s.push(item).drop_last() =~= s);
}

/// Where no item meets the condition, the count is zero, and the other way
/// round.
pub proof fn lemma_count_where_zero<T>(s: Seq<T>, wanted: spec_fn(T) -> bool)
    ensures
        count_where(s, wanted) == 0 <==> forall|i: int| 0 <= i < s.len() ==> !wanted(#[trigger] s[i]),
    decreases s.len(),
{
    if s.len() > 0 {
        let init = s.drop_last();
        lemma_count_where_zero(init, wanted);
        if count_where(s, wanted) == 0 {
            assert forall|i: int| 0 <= i < s.len() implies !wanted(#[trigger] s[i]) by {
                if i < s.len() - 1 {
                    assert(s[i] == init[i]);
                }
            }
        } else {
            if forall|i: int| 0 <= i < s.len() ==> !wanted(#[trigger] s[i]) {
                assert(!wanted(s[s.len() - 1]));
                assert forall|i: int| 0 <= i < init.len() implies !wanted(#[trigger] init[i]) by {
                    assert(init[i] == s[i]);
                }
            }
        }
    }
}

/// The items that meet `wanted`, in their order.
pub open spec fn keep_where<T>(s: Seq<T>, wanted: spec_fn(T) -> bool) -> Seq<T>
    decreases s.len(),
{
    if s.len() == 0 {
        Seq::empty()
    } else if wanted(s.last()) {
        keep_where(s.drop_last(), wanted).push(s.last())
    } else {
        keep_where(s.drop_last(), wanted)
    }
}

/// What is kept of the first `n + 1` items, from what is kept of the first
/// `n`.
pub proof fn lemma_keep_where_step<T>(s: Seq<T>, wanted: spec_fn(T) -> bool, n: int)
    requires
        0 <= n < s.len(),
    ensures
        keep_where(s.subrange(0, n + 1), wanted) == if wanted(s[n]) {
            keep_where(s.subrange(0, n), wanted).push(s[n])
        } else {
            keep_where(s.subrange(0, n), wanted)
        },
{
    assert(s.subrange(0, n + 1).drop_last() =~= s.subrange(0, n));
}

/// As many items are kept as meet the condition, each of them meets it, and
/// each is an item of the sequence.
pub proof fn lemma_keep_where<T>(s: Seq<T>, wanted: spec_fn(T) -> bool)
    ensures
        keep_where(s, wanted).len() == count_where(s, wanted),
        forall|i: int|
            0 <= i < keep_where(s, wanted).len() ==> wanted(#[trigger] keep_where(s, wanted)[i])
                && s.contains(keep_where(s, wanted)[i]),
    decreases s.len(),
{
    if s.len() > 0 {
        let init = s.drop_last();
        lemma_keep_where(init, wanted);
        assert forall|i: int| 0 <= i < keep_where(s, wanted).len() implies wanted(
            #[trigger] keep_where(s, wanted)[i],
        ) && s.contains(keep_where(s, wanted)[i]) by {
            if i < keep_where(init, wanted).len() {
                let x = keep_where(init, wanted)[i];
                assert(init.contains(x));
                let j = choose|j: int| 0 <= j < init.len() && init[j] == x;
                assert(s[j] == x);
            } else {
                assert(s[s.len() - 1] == s.last());
            }
        }
    }
}

/// Whether two sequences are of one length and related item by item.
pub open spec fn pairwise<A, B>(a: Seq<A>, b: Seq<B>, related: spec_fn(A, B) -> bool) -> bool {
    &&& a.len() == b.len()
    &&& forall|i: int| 0 <= i < a.len() ==> related(#[trigger] a[i], b[i])
}

/// Two sequences related item by item stay so when each gets one more item
/// and the two new items are related.
pub proof fn lemma_pairwise_push<A, B>(
    a: Seq<A>,
    b: Seq<B>,
    related: spec_fn(A, B) -> bool,
    x: A,
    y: B,
)
    requires
        pairwise(a, b, related),
        related(x, y),
    ensures
        pairwise(a.push(x), b.push(y), related),
{
    assert forall|i: int| 0 <= i < a.push(x).len() implies related(
        #[trigger] a.push(x)[i],
        b.push(y)[i],
    ) by {
        if i < a.len() {
            assert(a.push(x)[i] == a[i]);
            assert(related(a[i], b[i]));
        }
    }
}

/// The condition of belonging behind an item, by a rule that says of two
/// items whether the first belongs behind the second.
pub open spec fn belongs_behind<T>(item: T, behind: spec_fn(T, T) -> bool) -> spec_fn(T) -> bool {
    |x: T| behind(x, item)
}

/// Where an item goes in an arranged run: before the first item that
/// belongs behind it, and so behind all others.
pub open spec fn place_in<T>(ordered: Seq<T>, item: T, behind: spec_fn(T, T) -> bool) -> int {
    let i = first_where(ordered, belongs_behind(item, behind));
    if i < 0 {
        ordered.len() as int
    } else {
        i
    }
}

/// A run arranged by a rule: each item in turn is put in its place among
/// those before it. Items of which neither belongs behind the other stay in
/// the order they came in.
pub open spec fn arranged<T>(s: Seq<T>, behind: spec_fn(T, T) -> bool) -> Seq<T>
    decreases s.len(),
{
    if s.len() == 0 {
        Seq::empty()
    } else {
        let ordered = arranged(s.drop_last(), behind);
        ordered.insert(place_in(ordered, s.last(), behind), s.last())
    }
}

/// Whether no item of a run belongs behind a later one.
pub open spec fn is_arranged<T>(run: Seq<T>, behind: spec_fn(T, T) -> bool) -> bool {
    forall|i: int, j: int| 0 <= i < j < run.len() ==> !behind(run[i], run[j])
}

/// Whether a rule is one of rank: nothing belongs behind itself, and what
/// belongs behind an item belongs behind all that the item belongs behind.
pub open spec fn is_ranking<T>(behind: spec_fn(T, T) -> bool) -> bool {
    &&& forall|x: T| !#[trigger] behind(x, x)
    &&& forall|x: T, y: T, z: T| #[trigger] behind(x, y) && #[trigger] behind(y, z) ==> behind(x, z)
}

/// Whether the items that meet a condition are of one rank: whatever
/// belongs behind one of them belongs behind each.
pub open spec fn is_of_one_rank<T>(same: spec_fn(T) -> bool, behind: spec_fn(T, T) -> bool) -> bool {
    forall|x: T, a: T, b: T| same(a) && same(b) && #[trigger] behind(x, a) ==> #[trigger] behind(x, b)
}

/// Where `place_in` puts an item: within the run, behind no item that
/// belongs behind it, and right before one that does, if there is one.
pub proof fn lemma_place_in<T>(ordered: Seq<T>, item: T, behind: spec_fn(T, T) -> bool)
    ensures
        0 <= place_in(ordered, item, behind) <= ordered.len(),
        forall|i: int| 0 <= i < place_in(ordered, item, behind) ==> !behind(#[trigger] ordered[i], item),
        place_in(ordered, item, behind) < ordered.len() ==> behind(
            ordered[place_in(ordered, item, behind)],
            item,
        ),
{
    lemma_first_where(ordered, belongs_behind(item, behind));
    assert forall|i: int| 0 <= i < place_in(ordered, item, behind) implies !behind(
        #[trigger] ordered[i],
        item,
    ) by {
        assert(!belongs_behind(item, behind)(ordered[i]));
    }
}

/// An arranged run holds the items it was made of, each as often.
pub proof fn lemma_arranged_permutes<T>(s: Seq<T>, behind: spec_fn(T, T) -> bool)
    ensures
        arranged(s, behind).to_multiset() == s.to_multiset(),
        arranged(s, behind).len() == s.len(),
    decreases s.len(),
{
    if s.len() == 0 {
        assert(s =~= Seq::<T>::empty());
    } else {
        let earlier = s.drop_last();
        lemma_arranged_permutes(earlier, behind);
        let ordered = arranged(earlier, behind);
        lemma_place_in(ordered, s.last(), behind);
        assert(earlier.push(s.last()) =~= s);
        vstd::seq_lib::to_multiset_insert(ordered, place_in(ordered, s.last(), behind), s.last());
        vstd::seq_lib::to_multiset_build(earlier, s.last());
    }
}

/// In a run arranged by a rule of rank, no item belongs behind a later
/// one.
pub proof fn lemma_arranged_is_arranged<T>(s: Seq<T>, behind: spec_fn(T, T) -> bool)
    requires
        is_ranking(behind),
    ensures
        is_arranged(arranged(s, behind), behind),
    decreases s.len(),
{
    if s.len() > 0 {
        let earlier = s.drop_last();
        lemma_arranged_is_arranged(earlier, behind);
        let ordered = arranged(earlier, behind);
        let item = s.last();
        lemma_place_in(ordered, item, behind);
        let at = place_in(ordered, item, behind);
        let placed = ordered.insert(at, item);
        assert forall|i: int, j: int| 0 <= i < j < placed.len() implies !behind(
            placed[i],
            placed[j],
        ) by {
            if j < at {
                assert(placed[i] == ordered[i] && placed[j] == ordered[j]);
            } else if j == at {
                assert(placed[i] == ordered[i]);
            } else if i < at {
                assert(placed[i] == ordered[i] && placed[j] == ordered[j - 1]);
            } else if i == at {
                assert(placed[j] == ordered[j - 1]);
                assert(behind(ordered[at], item));
                if j - 1 > at {
                    assert(!behind(ordered[at], ordered[j - 1]));
                }
                if behind(item, ordered[j - 1]) {
                    assert(behind(ordered[at], ordered[j - 1]));
                }
            } else {
                assert(placed[i] == ordered[i - 1] && placed[j] == ordered[j - 1]);
            }
        }
    }
}

/// What is kept of two runs joined is what is kept of each, joined.
pub proof fn lemma_keep_where_joined<T>(a: Seq<T>, b: Seq<T>, wanted: spec_fn(T) -> bool)
    ensures
        keep_where(a + b, wanted) == keep_where(a, wanted) + keep_where(b, wanted),
    decreases b.len(),
{
    if b.len() == 0 {
        assert(a + b =~= a);
        assert(keep_where(a, wanted) + keep_where(b, wanted) =~= keep_where(a, wanted));
    } else {
        lemma_keep_where_joined(a, b.drop_last(), wanted);
        assert((a + b).drop_last() =~= a + b.drop_last());
        assert((a + b).last() == b.last());
        if wanted(b.last()) {
            assert(keep_where(a, wanted) + keep_where(b.drop_last(), wanted).push(b.last()) =~= (
            keep_where(a, wanted) + keep_where(b.drop_last(), wanted)).push(b.last()));
        }
    }
}

/// Nothing is kept of a run of which no item meets the condition.
pub proof fn lemma_keep_where_nothing<T>(s: Seq<T>, wanted: spec_fn(T) -> bool)
    requires
        forall|i: int| 0 <= i < s.len() ==> !wanted(#[trigger] s[i]),
    ensures
        keep_where(s, wanted) == Seq::<T>::empty(),
    decreases s.len(),
{
    if s.len() > 0 {
        assert forall|i: int| 0 <= i < s.drop_last().len() implies !wanted(
            #[trigger] s.drop_last()[i],
        ) by {
            assert(s.drop_last()[i] == s[i]);
        }
        lemma_keep_where_nothing(s.drop_last(), wanted);
        assert(!wanted(s[s.len() - 1]));
    }
}

/// Arranging a run by a rule of rank leaves items of one rank in the order
/// they came in.
pub proof fn lemma_arranged_keeps_order_within_rank<T>(
    s: Seq<T>,
    behind: spec_fn(T, T) -> bool,
    same: spec_fn(T) -> bool,
)
    requires
        is_ranking(behind),
        is_of_one_rank(same, behind),
    ensures
        keep_where(arranged(s, behind), same) == keep_where(s, same),
    decreases s.len(),
{
    if s.len() > 0 {
        let earlier = s.drop_last();
        lemma_arranged_keeps_order_within_rank(earlier, behind, same);
        lemma_arranged_is_arranged(earlier, behind);
        let ordered = arranged(earlier, behind);
        let item = s.last();
        lemma_place_in(ordered, item, behind);
        let at = place_in(ordered, item, behind);
        let front = ordered.subrange(0, at);
        let back = ordered.subrange(at, ordered.len() as int);
        assert(ordered =~= front + back);
        assert(ordered.insert(at, item) =~= (front + seq![item]) + back);
        lemma_keep_where_joined(front, back, same);
        lemma_keep_where_joined(front + seq![item], back, same);
        lemma_keep_where_joined(front, seq![item], same);
        let one = seq![item];
        assert(one.len() == 1 && one.last() == item);
        assert(one.drop_last() =~= Seq::<T>::empty());
        assert(keep_where(one.drop_last(), same) =~= Seq::<T>::empty());
        if same(item) {
            assert forall|i: int| 0 <= i < back.len() implies !same(#[trigger] back[i]) by {
                if same(back[i]) {
                    assert(behind(ordered[at], item));
                    assert(back[i] == ordered[at + i]);
                    assert(behind(ordered[at], back[i]));
                    if i > 0 {
                        assert(!behind(ordered[at], ordered[at + i]));
                    }
                }
            }
            lemma_keep_where_nothing(back, same);
            assert(keep_where(one, same) =~= seq![item]);
            assert(keep_where(front, same) + seq![item] + Seq::<T>::empty() =~= (keep_where(
                front,
                same,
            ) + Seq::<T>::empty()).push(item));
        } else {
            assert(keep_where(one, same) =~= Seq::<T>::empty());
            assert(keep_where(front, same) + Seq::<T>::empty() + keep_where(back, same)
                =~= keep_where(front, same) + keep_where(back, same));
        }
    }
}

} // verus!
