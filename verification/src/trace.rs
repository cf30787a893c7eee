//! The two capabilities of a value that lives behind a managed pointer.

use vstd::prelude::*;
use vstd::multiset::Multiset;
use crate::journal::{Footprint, Journal, Pass};

verus! {

/// The cleanup action of a type. It runs at most once for a value, before
/// the value is reclaimed, and may not rely on any other value of the same
/// cycle.
pub trait Finalize {
    /// The tokens under which the cleanup action of this value reports.
    /// An action that reports nothing leaves the journal as it is.
    open spec fn finalizer(&self) -> Multiset<usize> {
        Multiset::empty()
    }

    /// Runs the cleanup action of this value, and of nothing that it holds.
    fn finalize(&self, journal: &mut Journal)
        ensures
            final(journal)@ == old(journal)@.finalize(self.finalizer()),
    ;
}

/// The walk over the managed pointers that a value owns directly. The four
/// operations go by one footprint, so each of them reaches the same
/// pointers, each as often as the value holds it.
pub trait Trace: Finalize {
    /// The managed pointers that this value owns directly, and the tokens of
    /// the cleanup actions that its finalizing pass runs. Unless a type says
    /// otherwise, a value owns no pointer and only its own action runs.
    open spec fn footprint(&self) -> Footprint {
        Footprint::leaf(self.finalizer())
    }

    /// Marks every managed pointer that this value owns.
    fn trace(&self, journal: &mut Journal)
        ensures
            final(journal)@ == old(journal)@.apply(Pass::Trace, self.footprint()),
    ;

    /// Counts one more outside holder of every managed pointer that this
    /// value owns.
    fn root(&self, journal: &mut Journal)
        ensures
            final(journal)@ == old(journal)@.apply(Pass::Root, self.footprint()),
    ;

    /// Counts one outside holder less of every managed pointer that this
    /// value owns.
    fn unroot(&self, journal: &mut Journal)
        ensures
            final(journal)@ == old(journal)@.apply(Pass::Unroot, self.footprint()),
    ;

    /// Runs the cleanup action of this value and of everything that it
    /// holds, and hands the pass on to every managed pointer that it owns.
    fn finalize_glue(&self, journal: &mut Journal)
        ensures
            final(journal)@ == old(journal)@.apply(Pass::FinalizeGlue, self.footprint()),
    ;
}

/// Runs `pass` on `it`: the one step out of which every composite type
/// builds its four operations.
pub fn mark<T: Trace + ?Sized>(pass: Pass, it: &T, journal: &mut Journal)
    ensures
        final(journal)@ == old(journal)@.apply(pass, it.footprint()),
{
    match pass {
        Pass::Trace => it.trace(journal),
        Pass::Root => it.root(journal),
        Pass::Unroot => it.unroot(journal),
        Pass::FinalizeGlue => it.finalize_glue(journal),
    }
}

} // verus!
