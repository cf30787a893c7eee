//! The composite shapes of the language: boxes, options, results and
//! arrays. Each of them hands a pass on to what it holds, and owns no
//! pointer beyond those.

use vstd::prelude::*;
use crate::journal::{Footprint, Journal, Pass};
use crate::trace::{mark, Finalize, Trace};

verus! {

/// Runs `pass` on each of `items`, from the first to the last.
pub fn mark_all<T: Trace>(pass: Pass, items: &[T], journal: &mut Journal)
    ensures
        final(journal)@ == old(journal)@.apply(pass, crate::sums::sum_footprints(items@)),
{
    let mut i: usize = 0;
    proof {
        assert(items@.take(0) =~= Seq::<T>::empty());
        crate::sums::lemma_apply_empty(journal@, pass);
    }
    while i < items.len()
        invariant
            i <= items.len(),
            journal@ == old(journal)@.apply(pass, crate::sums::sum_footprints(items@.take(i as int))),
        decreases items.len() - i,
    {
        proof {
            assert(items@.take(i + 1).drop_last() =~= items@.take(i as int));
            crate::sums::lemma_apply_join(
                old(journal)@,
                pass,
                crate::sums::sum_footprints(items@.take(i as int)),
                items@[i as int].footprint(),
            );
        }
        mark(pass, &items[i], journal);
        i += 1;
    }
    assert(items@.take(items.len() as int) =~= items@);
}

impl<T: Trace + ?Sized> Finalize for Box<T> {
    fn finalize(&self, journal: &mut Journal) {
    }
}

impl<T: Trace + ?Sized> Trace for Box<T> {
    open spec fn footprint(&self) -> Footprint {
        (**self).footprint()
    }

    fn trace(&self, journal: &mut Journal) {
        mark(Pass::Trace, &**self, journal);
    }

    fn root(&self, journal: &mut Journal) {
        mark(Pass::Root, &**self, journal);
    }

    fn unroot(&self, journal: &mut Journal) {
        mark(Pass::Unroot, &**self, journal);
    }

    fn finalize_glue(&self, journal: &mut Journal) {
        self.finalize(journal);
        mark(Pass::FinalizeGlue, &**self, journal);
    }
}

/// Runs `pass` on what `this` holds, if it holds anything.
fn mark_option<T: Trace>(pass: Pass, this: &Option<T>, journal: &mut Journal)
    ensures
        final(journal)@ == old(journal)@.apply(pass, this.footprint()),
{
    match this {
        Some(v) => mark(pass, v, journal),
        None => {
            proof {
                crate::sums::lemma_apply_empty(journal@, pass);
            }
        },
    }
}

impl<T: Trace> Finalize for Option<T> {
    fn finalize(&self, journal: &mut Journal) {
    }
}

impl<T: Trace> Trace for Option<T> {
    open spec fn footprint(&self) -> Footprint {
        match self {
            Some(v) => v.footprint(),
            None => Footprint::empty(),
        }
    }

    fn trace(&self, journal: &mut Journal) {
        mark_option(Pass::Trace, self, journal);
    }

    fn root(&self, journal: &mut Journal) {
        mark_option(Pass::Root, self, journal);
    }

    fn unroot(&self, journal: &mut Journal) {
        mark_option(Pass::Unroot, self, journal);
    }

    fn finalize_glue(&self, journal: &mut Journal) {
        self.finalize(journal);
        mark_option(Pass::FinalizeGlue, self, journal);
    }
}

/// Runs `pass` on the value that `this` holds, whichever of the two it is.
fn mark_result<T: Trace, E: Trace>(pass: Pass, this: &Result<T, E>, journal: &mut Journal)
    ensures
        final(journal)@ == old(journal)@.apply(pass, this.footprint()),
{
    match this {
        Ok(v) => mark(pass, v, journal),
        Err(e) => mark(pass, e, journal),
    }
}

impl<T: Trace, E: Trace> Finalize for Result<T, E> {
    fn finalize(&self, journal: &mut Journal) {
    }
}

impl<T: Trace, E: Trace> Trace for Result<T, E> {
    open spec fn footprint(&self) -> Footprint {
        match self {
            Ok(v) => v.footprint(),
            Err(e) => e.footprint(),
        }
    }

    fn trace(&self, journal: &mut Journal) {
        mark_result(Pass::Trace, self, journal);
    }

    fn root(&self, journal: &mut Journal) {
        mark_result(Pass::Root, self, journal);
    }

    fn unroot(&self, journal: &mut Journal) {
        mark_result(Pass::Unroot, self, journal);
    }

    fn finalize_glue(&self, journal: &mut Journal) {
        self.finalize(journal);
        mark_result(Pass::FinalizeGlue, self, journal);
    }
}

impl<T: Trace, const N: usize> Finalize for [T; N] {
    fn finalize(&self, journal: &mut Journal) {
    }
}

impl<T: Trace, const N: usize> Trace for [T; N] {
    open spec fn footprint(&self) -> Footprint {
        crate::sums::sum_footprints(self@)
    }

    fn trace(&self, journal: &mut Journal) {
        mark_all(Pass::Trace, self.as_slice(), journal);
    }

    fn root(&self, journal: &mut Journal) {
        mark_all(Pass::Root, self.as_slice(), journal);
    }

    fn unroot(&self, journal: &mut Journal) {
        mark_all(Pass::Unroot, self.as_slice(), journal);
    }

    fn finalize_glue(&self, journal: &mut Journal) {
        self.finalize(journal);
        mark_all(Pass::FinalizeGlue, self.as_slice(), journal);
    }
}

} // verus!
