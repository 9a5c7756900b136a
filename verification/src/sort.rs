//! Sorting the frame's render items into draw order.
//!
//! The executable sort is a radix sort from an outside crate; its verified
//! contract pins the result to [`stable_sort_spec`], the unique stable
//! ascending order by `(sort_key, type_key)`, and the lemmas here prove
//! that order sorted and tie-preserving.

use vstd::prelude::*;

verus! {

use crate::render_item::RenderItem;
use crate::render_item::item_key_le;
use crate::render_item::item_has_key;

/// `x` placed into `s` behind every element whose key is not above its
/// own.  On a sorted sequence this keeps the order; on any sequence it
/// keeps `x` behind all earlier elements with the same key.
pub open spec fn insert_sorted(x: RenderItem, s: Seq<RenderItem>) -> Seq<RenderItem>
    decreases s.len(),
{
    if s.len() == 0 {
        seq![x]
    } else if item_key_le(s.last(), x) {
        s.push(x)
    } else {
        insert_sorted(x, s.drop_last()).push(s.last())
    }
}

/// The stable ascending order of `s` by `(sort_key, type_key)`: each
/// element inserted behind its equals, in turn.  As a function of the
/// input sequence it is deterministic by construction.
pub open spec fn stable_sort_spec(s: Seq<RenderItem>) -> Seq<RenderItem>
    decreases s.len(),
{
    if s.len() == 0 {
        s
    } else {
        insert_sorted(s.last(), stable_sort_spec(s.drop_last()))
    }
}

/// Every pair of positions is in order.
pub open spec fn sorted_by_item_key(s: Seq<RenderItem>) -> bool {
    forall|i: int, j: int| 0 <= i < j < s.len() ==> item_key_le(#[trigger] s[i], #[trigger] s[j])
}

/// Inserting keeps a sorted sequence sorted and adds exactly one element.
proof fn lemma_insert_sorted(x: RenderItem, s: Seq<RenderItem>)
    requires
        sorted_by_item_key(s),
    ensures
        sorted_by_item_key(insert_sorted(x, s)),
        insert_sorted(x, s).len() == s.len() + 1,
        insert_sorted(x, s).to_multiset() == s.to_multiset().insert(x),
    decreases s.len(),
{
    broadcast use vstd::seq_lib::group_to_multiset_ensures;

    if s.len() == 0 {
        assert(seq![x] =~= Seq::empty().push(x));
        assert(seq![x].to_multiset() == Seq::<RenderItem>::empty().to_multiset().insert(x));
        assert(Seq::<RenderItem>::empty().to_multiset() == s.to_multiset());
    } else if item_key_le(s.last(), x) {
        assert forall|i: int, j: int|
            0 <= i < j < s.push(x).len() implies item_key_le(
            #[trigger] s.push(x)[i],
            #[trigger] s.push(x)[j],
        ) by {
            if j < s.len() {
            } else {
                assert(s.push(x)[j] == x);
                if i < s.len() {
                    assert(item_key_le(s[i], s.last()));
                }
            }
        }
    } else {
        let rest = s.drop_last();
        assert(sorted_by_item_key(rest)) by {
            assert(forall|i: int, j: int|
                0 <= i < j < rest.len() ==> item_key_le(#[trigger] rest[i], #[trigger] rest[j]))
                by {
                assert(forall|i: int| 0 <= i < rest.len() ==> rest[i] == s[i]);
            };
        };
        lemma_insert_sorted(x, rest);
        let inner = insert_sorted(x, rest);
        assert forall|i: int, j: int|
            0 <= i < j < inner.push(s.last()).len() implies item_key_le(
            #[trigger] inner.push(s.last())[i],
            #[trigger] inner.push(s.last())[j],
        ) by {
            if j < inner.len() {
            } else {
                assert(inner.push(s.last())[j] == s.last());
                let a = inner.push(s.last())[i];
                assert(a == inner[i]);
                assert(inner.to_multiset() == rest.to_multiset().insert(x));
                assert(inner.to_multiset().contains(a)) by {
                    assert(inner.to_multiset().count(a) > 0);
                };
                if a == x {
                    assert(!item_key_le(s.last(), x));
                    assert(item_key_le(x, s.last()));
                } else {
                    assert(rest.to_multiset().count(a) > 0);
                    assert(rest.to_multiset().contains(a));
                    let k = choose|k: int| 0 <= k < rest.len() && rest[k] == a;
                    assert(item_key_le(rest[k], s.last())) by {
                        assert(rest[k] == s[k] && s.last() == s[s.len() - 1]);
                    };
                }
            }
        }
        assert(s =~= rest.push(s.last()));
        assert(s.to_multiset() == rest.to_multiset().insert(s.last()));
        assert(inner.push(s.last()).to_multiset() == inner.to_multiset().insert(s.last()));
        assert(inner.to_multiset().insert(s.last()) == rest.to_multiset().insert(x).insert(
            s.last(),
        ));
        assert(rest.to_multiset().insert(x).insert(s.last()) == rest.to_multiset().insert(
            s.last(),
        ).insert(x)) by {
            broadcast use vstd::multiset::group_multiset_axioms;

            assert(rest.to_multiset().insert(x).insert(s.last()) =~= rest.to_multiset().insert(
                s.last(),
            ).insert(x));
        };
    }
}

/// The stable sort is sorted and a permutation of its input.
pub proof fn lemma_stable_sort_sorted(s: Seq<RenderItem>)
    ensures
        sorted_by_item_key(stable_sort_spec(s)),
        stable_sort_spec(s).len() == s.len(),
        stable_sort_spec(s).to_multiset() == s.to_multiset(),
    decreases s.len(),
{
    broadcast use vstd::seq_lib::group_to_multiset_ensures;

    if s.len() == 0 {
    } else {
        lemma_stable_sort_sorted(s.drop_last());
        lemma_insert_sorted(s.last(), stable_sort_spec(s.drop_last()));
        assert(s =~= s.drop_last().push(s.last()));
        assert(s.to_multiset() == s.drop_last().to_multiset().insert(s.last()));
    }
}

/// The predicate selecting items that carry exactly the given key pair.
pub open spec fn key_pred(sort_key: i64, type_key: u8) -> spec_fn(RenderItem) -> bool {
    |it: RenderItem| item_has_key(it, sort_key, type_key)
}

/// Inserting an element whose keys are `(sort_key, type_key)` appends it to
/// the like-keyed subsequence and leaves every other subsequence alone.
proof fn lemma_insert_sorted_filter(
    x: RenderItem,
    s: Seq<RenderItem>,
    sort_key: i64,
    type_key: u8,
)
    requires
        sorted_by_item_key(s),
    ensures
        item_has_key(x, sort_key, type_key) ==> insert_sorted(x, s).filter(
            key_pred(sort_key, type_key),
        ) == s.filter(key_pred(sort_key, type_key)).push(x),
        !item_has_key(x, sort_key, type_key) ==> insert_sorted(x, s).filter(
            key_pred(sort_key, type_key),
        ) == s.filter(key_pred(sort_key, type_key)),
    decreases s.len(),
{
    reveal(Seq::filter);
    let pred = key_pred(sort_key, type_key);
    if s.len() == 0 {
        let one = insert_sorted(x, s);
        assert(one == seq![x]);
        assert(one.len() == 1);
        assert(one.drop_last() =~= s);
        assert(one.last() == x);
        assert(one.filter(pred) == if pred(x) {
            s.filter(pred).push(x)
        } else {
            s.filter(pred)
        });
        assert(pred(x) == item_has_key(x, sort_key, type_key));
    } else if item_key_le(s.last(), x) {
        let out = s.push(x);
        assert(insert_sorted(x, s) == out);
        assert(out.drop_last() =~= s);
        assert(out.last() == x);
        assert(out.filter(pred) == if pred(x) {
            s.filter(pred).push(x)
        } else {
            s.filter(pred)
        });
    } else {
        let rest = s.drop_last();
        assert(sorted_by_item_key(rest)) by {
            assert(forall|i: int| 0 <= i < rest.len() ==> rest[i] == s[i]);
        };
        lemma_insert_sorted_filter(x, rest, sort_key, type_key);
        let inner = insert_sorted(x, rest);
        let out = inner.push(s.last());
        assert(insert_sorted(x, s) == out);
        assert(out.drop_last() =~= inner);
        assert(out.last() == s.last());
        assert(out.filter(pred) == if pred(s.last()) {
            inner.filter(pred).push(s.last())
        } else {
            inner.filter(pred)
        });
        assert(s.filter(pred) == if pred(s.last()) {
            rest.filter(pred).push(s.last())
        } else {
            rest.filter(pred)
        });
        if item_has_key(x, sort_key, type_key) {
            // The new element's key is strictly above the last element's,
            // so the last element does not carry that key.
            assert(!item_key_le(s.last(), x));
            assert(!pred(s.last()));
        }
    }
}

/// Ties keep their original relative order: for every key pair, the
/// subsequence of items carrying exactly that pair is unchanged by the
/// stable sort.  With the proven ascending order this makes the sorted
/// sequence unique and the sort deterministic.
pub proof fn lemma_stable_sort_ties_preserved(s: Seq<RenderItem>, sort_key: i64, type_key: u8)
    ensures
        stable_sort_spec(s).filter(key_pred(sort_key, type_key)) == s.filter(
            key_pred(sort_key, type_key),
        ),
    decreases s.len(),
{
    reveal(Seq::filter);
    let pred = key_pred(sort_key, type_key);
    if s.len() == 0 {
    } else {
        lemma_stable_sort_ties_preserved(s.drop_last(), sort_key, type_key);
        lemma_stable_sort_sorted(s.drop_last());
        lemma_insert_sorted_filter(s.last(), stable_sort_spec(s.drop_last()), sort_key, type_key);
        assert(s.filter(pred) == if pred(s.last()) {
            s.drop_last().filter(pred).push(s.last())
        } else {
            s.drop_last().filter(pred)
        });
        assert(pred(s.last()) == item_has_key(s.last(), sort_key, type_key));
    }
}

/// Relies on `radsort::sort_by_key`, an LSD radix sort whose documentation
/// guarantees ascending order by the extracted key and stability ("does
/// not reorder equal elements"); a stable ascending sort by that key is
/// exactly [`stable_sort_spec`].
#[verifier::external_body]
fn radix_sort_by_draw_key(items: &mut Vec<RenderItem>)
    ensures
        final(items)@ == stable_sort_spec(old(items)@),
{
    radsort::sort_by_key(items.as_mut_slice(), |item: &RenderItem| (item.sort_key(), item.type_key()));
}

/// Sorts the items into draw order: ascending by `(sort_key, type_key)`,
/// ties keeping their original relative order.
pub fn sort_render_items(items: &mut Vec<RenderItem>)
    ensures
        final(items)@ == stable_sort_spec(old(items)@),
        sorted_by_item_key(final(items)@),
        final(items)@.len() == old(items)@.len(),
{
    radix_sort_by_draw_key(items);
    proof {
        lemma_stable_sort_sorted(old(items)@);
    }
}

} // verus!
