//! Vectors and double-ended queues. Each of them hands a pass on to every
//! value that it holds, once, and owns no pointer beyond theirs.

use vstd::prelude::*;
use std::collections::VecDeque;
use crate::journal::{Footprint, Journal, Pass};
use crate::shapes::mark_all;
use crate::trace::{mark, Finalize, Trace};

verus! {

impl<T: Trace> Finalize for Vec<T> {
    fn finalize(&self, journal: &mut Journal) {
    }
}

impl<T: Trace> Trace for Vec<T> {
    open spec fn footprint(&self) -> Footprint {
        crate::sums::sum_footprints(self@)
    }

    fn trace(&self, journal: &mut Journal) {
        mark_all(Pass::Trace, self.as_slice(), journal);
    }

    fn root(&self, journal: &mut Journal) {
        mark_all(Pass::Root, self.as_slice(), journal);
    }

    fn unroot(&self, journal: &mut Journal) {
        mark_all(Pass::Unroot, self.as_slice(), journal);
    }

    fn finalize_glue(&self, journal: &mut Journal) {
        self.finalize(journal);
        mark_all(Pass::FinalizeGlue, self.as_slice(), journal);
    }
}

/// Runs `pass` on each value in `this`, from the front to the back.
fn mark_deque<T: Trace>(pass: Pass, this: &VecDeque<T>, journal: &mut Journal)
    ensures
        final(journal)@ == old(journal)@.apply(pass, this.footprint()),
{
    let n: usize = this.len();
    let mut i: usize = 0;
    proof {
        assert(this@.take(0) =~= Seq::<T>::empty());
        crate::sums::lemma_apply_empty(journal@, pass);
    }
    while i < n
        invariant
            i <= n,
            n == this@.len(),
            journal@ == old(journal)@.apply(pass, crate::sums::sum_footprints(this@.take(i as int))),
        decreases n - i,
    {
        proof {
            assert(this@.take(i + 1).drop_last() =~= this@.take(i as int));
            crate::sums::lemma_apply_join(
                old(journal)@,
                pass,
                crate::sums::sum_footprints(this@.take(i as int)),
                this@[i as int].footprint(),
            );
        }
        mark(pass, &this[i], journal);
        i += 1;
    }
    assert(this@.take(n as int) =~= this@);
}

impl<T: Trace> Finalize for VecDeque<T> {
    fn finalize(&self, journal: &mut Journal) {
    }
}

impl<T: Trace> Trace for VecDeque<T> {
    open spec fn footprint(&self) -> Footprint {
        crate::sums::sum_footprints(self@)
    }

    fn trace(&self, journal: &mut Journal) {
        mark_deque(Pass::Trace, self, journal);
    }

    fn root(&self, journal: &mut Journal) {
        mark_deque(Pass::Root, self, journal);
    }

    fn unroot(&self, journal: &mut Journal) {
        mark_deque(Pass::Unroot, self, journal);
    }

    fn finalize_glue(&self, journal: &mut Journal) {
        self.finalize(journal);
        mark_deque(Pass::FinalizeGlue, self, journal);
    }
}

} // verus!
