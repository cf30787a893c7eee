//! What holds of the protocol whatever the values are: which passes move
//! a root count, what a value without pointers does, that a composite
//! stands for its parts in any order, and that rooting and unrooting
//! cancel.

use vstd::prelude::*;
use vstd::multiset::Multiset;
use crate::journal::{Footprint, Ledger, Pass};
use crate::trace::Trace;

verus! {

/// The ledger after `pass` has gone over a value with the given footprint
/// `n` times.
pub open spec fn apply_times(ledger: Ledger, pass: Pass, footprint: Footprint, n: nat) -> Ledger
    decreases n,
{
    if n == 0 {
        ledger
    } else {
        apply_times(ledger, pass, footprint, (n - 1) as nat).apply(pass, footprint)
    }
}

/// Every pass reaches each pointer that the value owns as often as the
/// value holds it, and leaves what the other passes have reached alone. So
/// the four passes reach the same pointers, and none of them skips one.
pub proof fn lemma_pass_reaches_every_pointer<T: Trace>(
    value: &T,
    ledger: Ledger,
    pass: Pass,
    other: Pass,
    p: usize,
)
    requires
        other != pass,
    ensures
        ledger.apply(pass, value.footprint()).reached(pass).count(p) == ledger.reached(pass).count(
            p,
        ) + value.footprint().pointers.count(p),
        ledger.apply(pass, value.footprint()).reached(other) == ledger.reached(other),
{
}

/// Only the finalizing pass runs cleanup actions, and it runs each action
/// of the value as often as the footprint lists it.
pub proof fn lemma_pass_runs_cleanups<T: Trace>(value: &T, ledger: Ledger, pass: Pass, token: usize)
    ensures
        pass == Pass::FinalizeGlue ==> ledger.apply(pass, value.footprint()).finalized.count(token)
            == ledger.finalized.count(token) + value.footprint().cleanups.count(token),
        pass != Pass::FinalizeGlue ==> ledger.apply(pass, value.footprint()).finalized
            == ledger.finalized,
{
}

/// Tracing and finalizing move no root count: only rooting and unrooting
/// do.
pub proof fn lemma_root_counts_move_by_rooting_only<T: Trace>(
    value: &T,
    ledger: Ledger,
    pass: Pass,
    p: usize,
)
    requires
        pass == Pass::Trace || pass == Pass::FinalizeGlue,
    ensures
        ledger.apply(pass, value.footprint()).root_count(p) == ledger.root_count(p),
{
}

/// A value that owns no pointer is reached by no pass: tracing, rooting
/// and unrooting it change nothing at all, and finalizing it runs its own
/// cleanup action once and does nothing else.
pub proof fn lemma_leaf_changes_nothing<T: Trace>(value: &T, ledger: Ledger, pass: Pass, p: usize)
    requires
        value.footprint() == Footprint::leaf(value.finalizer()),
    ensures
        pass != Pass::FinalizeGlue ==> ledger.apply(pass, value.footprint()) == ledger,
        pass == Pass::FinalizeGlue ==> ledger.apply(pass, value.footprint()) == ledger.finalize(
            value.finalizer(),
        ),
        ledger.apply(pass, value.footprint()).root_count(p) == ledger.root_count(p),
        ledger.apply(pass, value.footprint()).reached(pass) == ledger.reached(pass),
{
    let after = ledger.apply(pass, value.footprint());
    assert(after.reached(pass) =~= ledger.reached(pass));
    if pass == Pass::FinalizeGlue {
        assert(after =~= ledger.finalize(value.finalizer()));
    } else {
        assert(after =~= ledger);
    }
}

/// A pass over a collection of values that own no pointer and clean
/// nothing up changes nothing, however many of them there are.
pub proof fn lemma_collection_of_leaves_changes_nothing<T: Trace>(
    ledger: Ledger,
    pass: Pass,
    items: Seq<T>,
)
    requires
        forall|i: int| 0 <= i < items.len() ==> items[i].footprint() == Footprint::empty(),
    ensures
        ledger.apply(pass, crate::sums::sum_footprints(items)) == ledger,
{
    crate::sums::lemma_sum_empty(items);
    crate::sums::lemma_apply_empty(ledger, pass);
}

/// A pass over a collection does what the same pass does when it goes over
/// the values one by one, in whatever order it takes them.
pub proof fn lemma_delegation_in_any_order<T: Trace>(
    ledger: Ledger,
    pass: Pass,
    items: Seq<T>,
    reordered: Seq<T>,
)
    requires
        items.to_multiset() == reordered.to_multiset(),
    ensures
        crate::sums::apply_each(ledger, pass, reordered) == ledger.apply(
            pass,
            crate::sums::sum_footprints(items),
        ),
{
    crate::sums::lemma_sum_permutation(items, reordered);
    crate::sums::lemma_apply_each(ledger, pass, reordered);
}

/// The footprint of a tuple does not depend on the order of its
/// components, nor on how they are grouped: a pass over a tuple does what
/// the same pass does on the components in any order.
pub proof fn lemma_join_in_any_order(a: Footprint, b: Footprint, c: Footprint)
    ensures
        a.join(b) == b.join(a),
        a.join(b).join(c) == a.join(b.join(c)),
        a.join(Footprint::empty()) == a,
{
    assert(a.join(b) =~= b.join(a));
    assert(a.join(b).join(c) =~= a.join(b.join(c)));
    assert(a.join(Footprint::empty()) =~= a);
}

/// A pass over a set, or over the entries of a map, does what the same
/// pass does when it goes over any listing of the elements that names each
/// of them once.
pub proof fn lemma_delegation_over_a_set<T: Trace>(
    ledger: Ledger,
    pass: Pass,
    elements: Set<T>,
    listing: Seq<T>,
)
    requires
        listing.no_duplicates(),
        listing.to_set() == elements,
    ensures
        crate::sums::apply_each(ledger, pass, listing) == ledger.apply(
            pass,
            crate::sums::sum_footprints(elements.to_seq()),
        ),
{
    crate::sums::lemma_sum_listing(listing, elements);
    crate::sums::lemma_apply_each(ledger, pass, listing);
}

/// Rooting a value and unrooting it again leaves the root count of every
/// pointer where it was.
pub proof fn lemma_root_then_unroot<T: Trace>(value: &T, ledger: Ledger, p: usize)
    ensures
        ledger.apply(Pass::Root, value.footprint()).apply(Pass::Unroot, value.footprint()).root_count(
            p,
        ) == ledger.root_count(p),
{
}

/// Rooting a value `n` times moves the root count of each pointer up by
/// `n` times the number of times the value holds it, and unrooting it `n`
/// times moves it down by as much.
pub proof fn lemma_root_count_after<T: Trace>(value: &T, ledger: Ledger, n: nat, p: usize)
    ensures
        apply_times(ledger, Pass::Root, value.footprint(), n).root_count(p) == ledger.root_count(p)
            + n * value.footprint().pointers.count(p),
        apply_times(ledger, Pass::Unroot, value.footprint(), n).root_count(p) == ledger.root_count(
            p,
        ) - n * value.footprint().pointers.count(p),
    decreases n,
{
    let held: nat = value.footprint().pointers.count(p);
    if n == 0 {
        assert(n * held == 0) by (nonlinear_arith)
            requires
                n == 0,
        ;
    } else {
        let before: nat = (n - 1) as nat;
        lemma_root_count_after(value, ledger, before, p);
        assert(n * held == before * held + held) by (nonlinear_arith)
            requires
                n == before + 1,
        ;
    }
}

/// Rooting a value `n` times and then unrooting it `n` times leaves the
/// root count of every pointer where it was.
pub proof fn lemma_roots_then_unroots<T: Trace>(value: &T, ledger: Ledger, n: nat, p: usize)
    ensures
        apply_times(
            apply_times(ledger, Pass::Root, value.footprint(), n),
            Pass::Unroot,
            value.footprint(),
            n,
        ).root_count(p) == ledger.root_count(p),
{
    let rooted = apply_times(ledger, Pass::Root, value.footprint(), n);
    lemma_root_count_after(value, ledger, n, p);
    lemma_root_count_after(value, rooted, n, p);
}

} // verus!
