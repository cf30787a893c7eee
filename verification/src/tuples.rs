//! Tuples of up to twelve components. A tuple hands a pass on to each of
//! its components in turn, and owns no pointer beyond theirs.

use vstd::prelude::*;
use crate::journal::{Footprint, Journal, Pass};
use crate::trace::{mark, Finalize, Trace};

verus! {

/// Runs `pass` on the component of `this`.
fn mark_tuple1<A: Trace>(pass: Pass, this: &(A,), journal: &mut Journal)
    ensures
        final(journal)@ == old(journal)@.apply(pass, this.footprint()),
{
    mark(pass, &this.0, journal);
}

impl<A: Trace> Finalize for (A,) {
    fn finalize(&self, journal: &mut Journal) {
    }
}

impl<A: Trace> Trace for (A,) {
    open spec fn footprint(&self) -> Footprint {
        self.0.footprint()
    }

    fn trace(&self, journal: &mut Journal) {
        mark_tuple1(Pass::Trace, self, journal);
    }

    fn root(&self, journal: &mut Journal) {
        mark_tuple1(Pass::Root, self, journal);
    }

    fn unroot(&self, journal: &mut Journal) {
        mark_tuple1(Pass::Unroot, self, journal);
    }

    fn finalize_glue(&self, journal: &mut Journal) {
        self.finalize(journal);
        mark_tuple1(Pass::FinalizeGlue, self, journal);
    }
}

/// Runs `pass` on each of the two components of `this`.
fn mark_tuple2<A: Trace, B: Trace>(pass: Pass, this: &(A, B), journal: &mut Journal)
    ensures
        final(journal)@ == old(journal)@.apply(pass, this.footprint()),
{
    mark(pass, &this.0, journal);
    mark(pass, &this.1, journal);
}

impl<A: Trace, B: Trace> Finalize for (A, B) {
    fn finalize(&self, journal: &mut Journal) {
    }
}

impl<A: Trace, B: Trace> Trace for (A, B) {
    open spec fn footprint(&self) -> Footprint {
        self.0.footprint().join(self.1.footprint())
    }

    fn trace(&self, journal: &mut Journal) {
        mark_tuple2(Pass::Trace, self, journal);
    }

    fn root(&self, journal: &mut Journal) {
        mark_tuple2(Pass::Root, self, journal);
    }

    fn unroot(&self, journal: &mut Journal) {
        mark_tuple2(Pass::Unroot, self, journal);
    }

    fn finalize_glue(&self, journal: &mut Journal) {
        self.finalize(journal);
        mark_tuple2(Pass::FinalizeGlue, self, journal);
    }
}

/// Runs `pass` on each of the three components of `this`.
fn mark_tuple3<A: Trace, B: Trace, C: Trace>(pass: Pass, this: &(A, B, C), journal: &mut Journal)
    ensures
        final(journal)@ == old(journal)@.apply(pass, this.footprint()),
{
    mark(pass, &this.0, journal);
    mark(pass, &this.1, journal);
    mark(pass, &this.2, journal);
}

impl<A: Trace, B: Trace, C: Trace> Finalize for (A, B, C) {
    fn finalize(&self, journal: &mut Journal) {
    }
}

impl<A: Trace, B: Trace, C: Trace> Trace for (A, B, C) {
    open spec fn footprint(&self) -> Footprint {
        self.0.footprint().join(self.1.footprint()).join(self.2.footprint())
    }

    fn trace(&self, journal: &mut Journal) {
        mark_tuple3(Pass::Trace, self, journal);
    }

    fn root(&self, journal: &mut Journal) {
        mark_tuple3(Pass::Root, self, journal);
    }

    fn unroot(&self, journal: &mut Journal) {
        mark_tuple3(Pass::Unroot, self, journal);
    }

    fn finalize_glue(&self, journal: &mut Journal) {
        self.finalize(journal);
        mark_tuple3(Pass::FinalizeGlue, self, journal);
    }
}

/// Runs `pass` on each of the four components of `this`.
fn mark_tuple4<A: Trace, B: Trace, C: Trace, D: Trace>(
    pass: Pass,
    this: &(A, B, C, D),
    journal: &mut Journal,
)
    ensures
        final(journal)@ == old(journal)@.apply(pass, this.footprint()),
{
    mark(pass, &this.0, journal);
    mark(pass, &this.1, journal);
    mark(pass, &this.2, journal);
    mark(pass, &this.3, journal);
}

impl<A: Trace, B: Trace, C: Trace, D: Trace> Finalize for (A, B, C, D) {
    fn finalize(&self, journal: &mut Journal) {
    }
}

impl<A: Trace, B: Trace, C: Trace, D: Trace> Trace for (A, B, C, D) {
    open spec fn footprint(&self) -> Footprint {
        self.0.footprint()
            .join(self.1.footprint())
            .join(self.2.footprint())
            .join(self.3.footprint())
    }

    fn trace(&self, journal: &mut Journal) {
        mark_tuple4(Pass::Trace, self, journal);
    }

    fn root(&self, journal: &mut Journal) {
        mark_tuple4(Pass::Root, self, journal);
    }

    fn unroot(&self, journal: &mut Journal) {
        mark_tuple4(Pass::Unroot, self, journal);
    }

    fn finalize_glue(&self, journal: &mut Journal) {
        self.finalize(journal);
        mark_tuple4(Pass::FinalizeGlue, self, journal);
    }
}

/// Runs `pass` on each of the five components of `this`.
fn mark_tuple5<A: Trace, B: Trace, C: Trace, D: Trace, E: Trace>(
    pass: Pass,
    this: &(A, B, C, D, E),
    journal: &mut Journal,
)
    ensures
        final(journal)@ == old(journal)@.apply(pass, this.footprint()),
{
    mark(pass, &this.0, journal);
    mark(pass, &this.1, journal);
    mark(pass, &this.2, journal);
    mark(pass, &this.3, journal);
    mark(pass, &this.4, journal);
}

impl<A: Trace, B: Trace, C: Trace, D: Trace, E: Trace> Finalize for (A, B, C, D, E) {
    fn finalize(&self, journal: &mut Journal) {
    }
}

impl<A: Trace, B: Trace, C: Trace, D: Trace, E: Trace> Trace for (A, B, C, D, E) {
    open spec fn footprint(&self) -> Footprint {
        self.0.footprint()
            .join(self.1.footprint())
            .join(self.2.footprint())
            .join(self.3.footprint())
            .join(self.4.footprint())
    }

    fn trace(&self, journal: &mut Journal) {
        mark_tuple5(Pass::Trace, self, journal);
    }

    fn root(&self, journal: &mut Journal) {
        mark_tuple5(Pass::Root, self, journal);
    }

    fn unroot(&self, journal: &mut Journal) {
        mark_tuple5(Pass::Unroot, self, journal);
    }

    fn finalize_glue(&self, journal: &mut Journal) {
        self.finalize(journal);
        mark_tuple5(Pass::FinalizeGlue, self, journal);
    }
}

/// Runs `pass` on each of the six components of `this`.
fn mark_tuple6<A: Trace, B: Trace, C: Trace, D: Trace, E: Trace, F: Trace>(
    pass: Pass,
    this: &(A, B, C, D, E, F),
    journal: &mut Journal,
)
    ensures
        final(journal)@ == old(journal)@.apply(pass, this.footprint()),
{
    mark(pass, &this.0, journal);
    mark(pass, &this.1, journal);
    mark(pass, &this.2, journal);
    mark(pass, &this.3, journal);
    mark(pass, &this.4, journal);
    mark(pass, &this.5, journal);
}

impl<A: Trace, B: Trace, C: Trace, D: Trace, E: Trace, F: Trace> Finalize for (A, B, C, D, E, F) {
    fn finalize(&self, journal: &mut Journal) {
    }
}

impl<A: Trace, B: Trace, C: Trace, D: Trace, E: Trace, F: Trace> Trace for (A, B, C, D, E, F) {
    open spec fn footprint(&self) -> Footprint {
        self.0.footprint()
            .join(self.1.footprint())
            .join(self.2.footprint())
            .join(self.3.footprint())
            .join(self.4.footprint())
            .join(self.5.footprint())
    }

    fn trace(&self, journal: &mut Journal) {
        mark_tuple6(Pass::Trace, self, journal);
    }

    fn root(&self, journal: &mut Journal) {
        mark_tuple6(Pass::Root, self, journal);
    }

    fn unroot(&self, journal: &mut Journal) {
        mark_tuple6(Pass::Unroot, self, journal);
    }

    fn finalize_glue(&self, journal: &mut Journal) {
        self.finalize(journal);
        mark_tuple6(Pass::FinalizeGlue, self, journal);
    }
}

/// Runs `pass` on each of the seven components of `this`.
fn mark_tuple7<A: Trace, B: Trace, C: Trace, D: Trace, E: Trace, F: Trace, G: Trace>(
    pass: Pass,
    this: &(A, B, C, D, E, F, G),
    journal: &mut Journal,
)
    ensures
        final(journal)@ == old(journal)@.apply(pass, this.footprint()),
{
    mark(pass, &this.0, journal);
    mark(pass, &this.1, journal);
    mark(pass, &this.2, journal);
    mark(pass, &this.3, journal);
    mark(pass, &this.4, journal);
    mark(pass, &this.5, journal);
    mark(pass, &this.6, journal);
}

impl<A: Trace, B: Trace, C: Trace, D: Trace, E: Trace, F: Trace, G: Trace> Finalize for (A, B, C, D, E, F, G) {
    fn finalize(&self, journal: &mut Journal) {
    }
}

impl<A: Trace, B: Trace, C: Trace, D: Trace, E: Trace, F: Trace, G: Trace> Trace for (A, B, C, D, E, F, G) {
    open spec fn footprint(&self) -> Footprint {
        self.0.footprint()
            .join(self.1.footprint())
            .join(self.2.footprint())
            .join(self.3.footprint())
            .join(self.4.footprint())
            .join(self.5.footprint())
            .join(self.6.footprint())
    }

    fn trace(&self, journal: &mut Journal) {
        mark_tuple7(Pass::Trace, self, journal);
    }

    fn root(&self, journal: &mut Journal) {
        mark_tuple7(Pass::Root, self, journal);
    }

    fn unroot(&self, journal: &mut Journal) {
        mark_tuple7(Pass::Unroot, self, journal);
    }

    fn finalize_glue(&self, journal: &mut Journal) {
        self.finalize(journal);
        mark_tuple7(Pass::FinalizeGlue, self, journal);
    }
}

/// Runs `pass` on each of the eight components of `this`.
fn mark_tuple8<A: Trace, B: Trace, C: Trace, D: Trace, E: Trace, F: Trace, G: Trace, H: Trace>(
    pass: Pass,
    this: &(A, B, C, D, E, F, G, H),
    journal: &mut Journal,
)
    ensures
        final(journal)@ == old(journal)@.apply(pass, this.footprint()),
{
    mark(pass, &this.0, journal);
    mark(pass, &this.1, journal);
    mark(pass, &this.2, journal);
    mark(pass, &this.3, journal);
    mark(pass, &this.4, journal);
    mark(pass, &this.5, journal);
    mark(pass, &this.6, journal);
    mark(pass, &this.7, journal);
}

impl<A: Trace, B: Trace, C: Trace, D: Trace, E: Trace, F: Trace, G: Trace, H: Trace> Finalize for (A, B, C, D, E, F, G, H) {
    fn finalize(&self, journal: &mut Journal) {
    }
}

impl<A: Trace, B: Trace, C: Trace, D: Trace, E: Trace, F: Trace, G: Trace, H: Trace> Trace for (A, B, C, D, E, F, G, H) {
    open spec fn footprint(&self) -> Footprint {
        self.0.footprint()
            .join(self.1.footprint())
            .join(self.2.footprint())
            .join(self.3.footprint())
            .join(self.4.footprint())
            .join(self.5.footprint())
            .join(self.6.footprint())
            .join(self.7.footprint())
    }

    fn trace(&self, journal: &mut Journal) {
        mark_tuple8(Pass::Trace, self, journal);
    }

    fn root(&self, journal: &mut Journal) {
        mark_tuple8(Pass::Root, self, journal);
    }

    fn unroot(&self, journal: &mut Journal) {
        mark_tuple8(Pass::Unroot, self, journal);
    }

    fn finalize_glue(&self, journal: &mut Journal) {
        self.finalize(journal);
        mark_tuple8(Pass::FinalizeGlue, self, journal);
    }
}

/// Runs `pass` on each of the nine components of `this`.
fn mark_tuple9<A: Trace, B: Trace, C: Trace, D: Trace, E: Trace, F: Trace, G: Trace, H: Trace, I: Trace>(
    pass: Pass,
    this: &(A, B, C, D, E, F, G, H, I),
    journal: &mut Journal,
)
    ensures
        final(journal)@ == old(journal)@.apply(pass, this.footprint()),
{
    mark(pass, &this.0, journal);
    mark(pass, &this.1, journal);
    mark(pass, &this.2, journal);
    mark(pass, &this.3, journal);
    mark(pass, &this.4, journal);
    mark(pass, &this.5, journal);
    mark(pass, &this.6, journal);
    mark(pass, &this.7, journal);
    mark(pass, &this.8, journal);
}

impl<A: Trace, B: Trace, C: Trace, D: Trace, E: Trace, F: Trace, G: Trace, H: Trace, I: Trace> Finalize for (A, B, C, D, E, F, G, H, I) {
    fn finalize(&self, journal: &mut Journal) {
    }
}

impl<A: Trace, B: Trace, C: Trace, D: Trace, E: Trace, F: Trace, G: Trace, H: Trace, I: Trace> Trace for (A, B, C, D, E, F, G, H, I) {
    open spec fn footprint(&self) -> Footprint {
        self.0.footprint()
            .join(self.1.footprint())
            .join(self.2.footprint())
            .join(self.3.footprint())
            .join(self.4.footprint())
            .join(self.5.footprint())
            .join(self.6.footprint())
            .join(self.7.footprint())
            .join(self.8.footprint())
    }

    fn trace(&self, journal: &mut Journal) {
        mark_tuple9(Pass::Trace, self, journal);
    }

    fn root(&self, journal: &mut Journal) {
        mark_tuple9(Pass::Root, self, journal);
    }

    fn unroot(&self, journal: &mut Journal) {
        mark_tuple9(Pass::Unroot, self, journal);
    }

    fn finalize_glue(&self, journal: &mut Journal) {
        self.finalize(journal);
        mark_tuple9(Pass::FinalizeGlue, self, journal);
    }
}

/// Runs `pass` on each of the ten components of `this`.
fn mark_tuple10<A: Trace, B: Trace, C: Trace, D: Trace, E: Trace, F: Trace, G: Trace, H: Trace, I: Trace, J: Trace>(
    pass: Pass,
    this: &(A, B, C, D, E, F, G, H, I, J),
    journal: &mut Journal,
)
    ensures
        final(journal)@ == old(journal)@.apply(pass, this.footprint()),
{
    mark(pass, &this.0, journal);
    mark(pass, &this.1, journal);
    mark(pass, &this.2, journal);
    mark(pass, &this.3, journal);
    mark(pass, &this.4, journal);
    mark(pass, &this.5, journal);
    mark(pass, &this.6, journal);
    mark(pass, &this.7, journal);
    mark(pass, &this.8, journal);
    mark(pass, &this.9, journal);
}

impl<A: Trace, B: Trace, C: Trace, D: Trace, E: Trace, F: Trace, G: Trace, H: Trace, I: Trace, J: Trace> Finalize for (A, B, C, D, E, F, G, H, I, J) {
    fn finalize(&self, journal: &mut Journal) {
    }
}

impl<A: Trace, B: Trace, C: Trace, D: Trace, E: Trace, F: Trace, G: Trace, H: Trace, I: Trace, J: Trace> Trace for (A, B, C, D, E, F, G, H, I, J) {
    open spec fn footprint(&self) -> Footprint {
        self.0.footprint()
            .join(self.1.footprint())
            .join(self.2.footprint())
            .join(self.3.footprint())
            .join(self.4.footprint())
            .join(self.5.footprint())
            .join(self.6.footprint())
            .join(self.7.footprint())
            .join(self.8.footprint())
            .join(self.9.footprint())
    }

    fn trace(&self, journal: &mut Journal) {
        mark_tuple10(Pass::Trace, self, journal);
    }

    fn root(&self, journal: &mut Journal) {
        mark_tuple10(Pass::Root, self, journal);
    }

    fn unroot(&self, journal: &mut Journal) {
        mark_tuple10(Pass::Unroot, self, journal);
    }

    fn finalize_glue(&self, journal: &mut Journal) {
        self.finalize(journal);
        mark_tuple10(Pass::FinalizeGlue, self, journal);
    }
}

/// Runs `pass` on each of the eleven components of `this`.
fn mark_tuple11<A: Trace, B: Trace, C: Trace, D: Trace, E: Trace, F: Trace, G: Trace, H: Trace, I: Trace, J: Trace, K: Trace>(
    pass: Pass,
    this: &(A, B, C, D, E, F, G, H, I, J, K),
    journal: &mut Journal,
)
    ensures
        final(journal)@ == old(journal)@.apply(pass, this.footprint()),
{
    mark(pass, &this.0, journal);
    mark(pass, &this.1, journal);
    mark(pass, &this.2, journal);
    mark(pass, &this.3, journal);
    mark(pass, &this.4, journal);
    mark(pass, &this.5, journal);
    mark(pass, &this.6, journal);
    mark(pass, &this.7, journal);
    mark(pass, &this.8, journal);
    mark(pass, &this.9, journal);
    mark(pass, &this.10, journal);
}

impl<A: Trace, B: Trace, C: Trace, D: Trace, E: Trace, F: Trace, G: Trace, H: Trace, I: Trace, J: Trace, K: Trace> Finalize for (A, B, C, D, E, F, G, H, I, J, K) {
    fn finalize(&self, journal: &mut Journal) {
    }
}

impl<A: Trace, B: Trace, C: Trace, D: Trace, E: Trace, F: Trace, G: Trace, H: Trace, I: Trace, J: Trace, K: Trace> Trace for (A, B, C, D, E, F, G, H, I, J, K) {
    open spec fn footprint(&self) -> Footprint {
        self.0.footprint()
            .join(self.1.footprint())
            .join(self.2.footprint())
            .join(self.3.footprint())
            .join(self.4.footprint())
            .join(self.5.footprint())
            .join(self.6.footprint())
            .join(self.7.footprint())
            .join(self.8.footprint())
            .join(self.9.footprint())
            .join(self.10.footprint())
    }

    fn trace(&self, journal: &mut Journal) {
        mark_tuple11(Pass::Trace, self, journal);
    }

    fn root(&self, journal: &mut Journal) {
        mark_tuple11(Pass::Root, self, journal);
    }

    fn unroot(&self, journal: &mut Journal) {
        mark_tuple11(Pass::Unroot, self, journal);
    }

    fn finalize_glue(&self, journal: &mut Journal) {
        self.finalize(journal);
        mark_tuple11(Pass::FinalizeGlue, self, journal);
    }
}

/// Runs `pass` on each of the twelve components of `this`.
fn mark_tuple12<A: Trace, B: Trace, C: Trace, D: Trace, E: Trace, F: Trace, G: Trace, H: Trace, I: Trace, J: Trace, K: Trace, L: Trace>(
    pass: Pass,
    this: &(A, B, C, D, E, F, G, H, I, J, K, L),
    journal: &mut Journal,
)
    ensures
        final(journal)@ == old(journal)@.apply(pass, this.footprint()),
{
    mark(pass, &this.0, journal);
    mark(pass, &this.1, journal);
    mark(pass, &this.2, journal);
    mark(pass, &this.3, journal);
    mark(pass, &this.4, journal);
    mark(pass, &this.5, journal);
    mark(pass, &this.6, journal);
    mark(pass, &this.7, journal);
    mark(pass, &this.8, journal);
    mark(pass, &this.9, journal);
    mark(pass, &this.10, journal);
    mark(pass, &this.11, journal);
}

impl<A: Trace, B: Trace, C: Trace, D: Trace, E: Trace, F: Trace, G: Trace, H: Trace, I: Trace, J: Trace, K: Trace, L: Trace> Finalize for (A, B, C, D, E, F, G, H, I, J, K, L) {
    fn finalize(&self, journal: &mut Journal) {
    }
}

impl<A: Trace, B: Trace, C: Trace, D: Trace, E: Trace, F: Trace, G: Trace, H: Trace, I: Trace, J: Trace, K: Trace, L: Trace> Trace for (A, B, C, D, E, F, G, H, I, J, K, L) {
    open spec fn footprint(&self) -> Footprint {
        self.0.footprint()
            .join(self.1.footprint())
            .join(self.2.footprint())
            .join(self.3.footprint())
            .join(self.4.footprint())
            .join(self.5.footprint())
            .join(self.6.footprint())
            .join(self.7.footprint())
            .join(self.8.footprint())
            .join(self.9.footprint())
            .join(self.10.footprint())
            .join(self.11.footprint())
    }

    fn trace(&self, journal: &mut Journal) {
        mark_tuple12(Pass::Trace, self, journal);
    }

    fn root(&self, journal: &mut Journal) {
        mark_tuple12(Pass::Root, self, journal);
    }

    fn unroot(&self, journal: &mut Journal) {
        mark_tuple12(Pass::Unroot, self, journal);
    }

    fn finalize_glue(&self, journal: &mut Journal) {
        self.finalize(journal);
        mark_tuple12(Pass::FinalizeGlue, self, journal);
    }
}

} // verus!
