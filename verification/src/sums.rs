//! The footprint of a run of values, and what a pass does to a ledger when
//! it goes over them one by one.

use vstd::prelude::*;
use crate::journal::{Footprint, Ledger, Pass};
use crate::trace::Trace;

verus! {

/// The footprints of `items` taken together.
pub open spec fn sum_footprints<T: Trace>(items: Seq<T>) -> Footprint
    decreases items.len(),
{
    if items.len() == 0 {
        Footprint::empty()
    } else {
        sum_footprints(items.drop_last()).join(items.last().footprint())
    }
}

/// The ledger after `pass` has gone over each of `items` in turn, from the
/// first to the last.
pub open spec fn apply_each<T: Trace>(ledger: Ledger, pass: Pass, items: Seq<T>) -> Ledger
    decreases items.len(),
{
    if items.len() == 0 {
        ledger
    } else {
        apply_each(ledger, pass, items.drop_last()).apply(pass, items.last().footprint())
    }
}

/// A pass over two values, one after the other, does what one pass over
/// both of them together does.
pub proof fn lemma_apply_join(ledger: Ledger, pass: Pass, a: Footprint, b: Footprint)
    ensures
        ledger.apply(pass, a).apply(pass, b) == ledger.apply(pass, a.join(b)),
{
    assert(ledger.apply(pass, a).apply(pass, b) =~= ledger.apply(pass, a.join(b)));
}

/// A pass over a value with an empty footprint changes nothing.
pub proof fn lemma_apply_empty(ledger: Ledger, pass: Pass)
    ensures
        ledger.apply(pass, Footprint::empty()) == ledger,
{
    assert(ledger.apply(pass, Footprint::empty()) =~= ledger);
}

/// The footprint of one run of values followed by another is that of the
/// two runs taken together.
pub proof fn lemma_sum_concat<T: Trace>(a: Seq<T>, b: Seq<T>)
    ensures
        sum_footprints(a + b) == sum_footprints(a).join(sum_footprints(b)),
    decreases b.len(),
{
    if b.len() == 0 {
        assert(a + b =~= a);
        assert(sum_footprints(a).join(Footprint::empty()) =~= sum_footprints(a));
    } else {
        assert((a + b).drop_last() =~= a + b.drop_last());
        assert((a + b).last() == b.last());
        lemma_sum_concat(a, b.drop_last());
        assert(sum_footprints(a + b) =~= sum_footprints(a).join(sum_footprints(b)));
    }
}

/// The footprint of a single value, seen as a run of length one.
pub proof fn lemma_sum_one<T: Trace>(x: T)
    ensures
        sum_footprints(seq![x]) == x.footprint(),
{
    assert(seq![x].drop_last() =~= Seq::<T>::empty());
    assert(sum_footprints(Seq::<T>::empty()) == Footprint::empty());
    assert(sum_footprints(seq![x]) =~= x.footprint());
}

/// A run of values none of which owns a pointer or cleans anything up has
/// the empty footprint.
pub proof fn lemma_sum_empty<T: Trace>(items: Seq<T>)
    requires
        forall|i: int| 0 <= i < items.len() ==> items[i].footprint() == Footprint::empty(),
    ensures
        sum_footprints(items) == Footprint::empty(),
    decreases items.len(),
{
    if items.len() > 0 {
        lemma_sum_empty(items.drop_last());
        assert(sum_footprints(items) =~= Footprint::empty());
    }
}

/// The footprint of a run of values does not depend on their order: two
/// runs that hold the same values equally often have the same footprint.
pub proof fn lemma_sum_permutation<T: Trace>(a: Seq<T>, b: Seq<T>)
    requires
        a.to_multiset() == b.to_multiset(),
    ensures
        sum_footprints(a) == sum_footprints(b),
    decreases a.len(),
{
    broadcast use vstd::seq_lib::group_to_multiset_ensures;

    if a.len() == 0 {
        assert(b.to_multiset().len() == 0);
        assert(b.len() == 0);
    } else {
        let x = a.last();
        let rest = a.drop_last();
        assert(a =~= rest.push(x));
        assert(b.to_multiset().count(x) > 0);
        assert(b.contains(x));
        let i: int = choose|i: int| 0 <= i < b.len() && b[i] == x;
        let others = b.remove(i);
        assert(others.to_multiset() =~= rest.to_multiset()) by {
            assert(rest.push(x).to_multiset() =~= rest.to_multiset().insert(x));
            assert(others.to_multiset() =~= b.to_multiset().remove(x));
        }
        lemma_sum_permutation(rest, others);
        let front = b.take(i);
        let back = b.skip(i + 1);
        assert(b =~= front + seq![x] + back);
        assert(others =~= front + back);
        lemma_sum_concat(front, seq![x]);
        lemma_sum_concat(front + seq![x], back);
        lemma_sum_concat(front, back);
        lemma_sum_one(x);
        assert(sum_footprints(b) =~= sum_footprints(others).join(x.footprint()));
    }
}

/// Two runs without repeats that hold the same values have the same
/// footprint.
pub proof fn lemma_sum_distinct<T: Trace>(a: Seq<T>, b: Seq<T>)
    requires
        a.no_duplicates(),
        b.no_duplicates(),
        a.to_set() == b.to_set(),
    ensures
        sum_footprints(a) == sum_footprints(b),
{
    broadcast use vstd::seq_lib::group_to_multiset_ensures;

    a.lemma_multiset_has_no_duplicates();
    b.lemma_multiset_has_no_duplicates();
    assert forall|x: T| a.to_multiset().count(x) == b.to_multiset().count(x) by {
        assert(a.contains(x) <==> a.to_set().contains(x));
        assert(b.contains(x) <==> b.to_set().contains(x));
    }
    assert(a.to_multiset() =~= b.to_multiset());
    lemma_sum_permutation(a, b);
}

/// The run that lists a finite set holds none of its elements twice.
pub proof fn lemma_to_seq_distinct<A>(s: Set<A>)
    requires
        s.finite(),
    ensures
        s.to_seq().no_duplicates(),
    decreases s.len(),
{
    if s.len() != 0 {
        let x = s.choose();
        let rest = s.remove(x);
        s.lemma_to_seq_to_set_id();
        rest.lemma_to_seq_to_set_id();
        lemma_to_seq_distinct(rest);
        let head = Seq::<A>::empty().push(x);
        assert(s.to_seq() == head + rest.to_seq());
        assert(!rest.to_seq().contains(x)) by {
            assert(rest.to_seq().contains(x) <==> rest.to_seq().to_set().contains(x));
        }
        assert forall|i: int, j: int|
            0 <= i < s.to_seq().len() && 0 <= j < s.to_seq().len() && i != j implies s.to_seq()[i]
            != s.to_seq()[j] by {
            if i > 0 {
                assert(s.to_seq()[i] == rest.to_seq()[i - 1]);
            }
            if j > 0 {
                assert(s.to_seq()[j] == rest.to_seq()[j - 1]);
            }
        }
    }
}

/// Any run that names each element of a set once has the footprint of the
/// set's own listing.
pub proof fn lemma_sum_listing<T: Trace>(listing: Seq<T>, elements: Set<T>)
    requires
        listing.no_duplicates(),
        listing.to_set() == elements,
    ensures
        sum_footprints(listing) == sum_footprints(elements.to_seq()),
{
    vstd::seq_lib::seq_to_set_is_finite(listing);
    elements.lemma_to_seq_to_set_id();
    lemma_to_seq_distinct(elements);
    lemma_sum_distinct(listing, elements.to_seq());
}

/// A pass that goes over a run of values one by one does what one pass
/// over their joint footprint does.
pub proof fn lemma_apply_each<T: Trace>(ledger: Ledger, pass: Pass, items: Seq<T>)
    ensures
        apply_each(ledger, pass, items) == ledger.apply(pass, sum_footprints(items)),
    decreases items.len(),
{
    if items.len() == 0 {
        lemma_apply_empty(ledger, pass);
    } else {
        lemma_apply_each(ledger, pass, items.drop_last());
        lemma_apply_join(
            ledger,
            pass,
            sum_footprints(items.drop_last()),
            items.last().footprint(),
        );
    }
}

} // verus!
