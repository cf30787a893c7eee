//! The types that hold no managed pointer. All four operations leave the
//! journal as it is: no pointer is reached, and the cleanup action of such
//! a type reports nothing.

use vstd::prelude::*;
use std::path::{Path, PathBuf};
use std::sync::atomic::{AtomicBool, AtomicIsize, AtomicUsize};
use crate::journal::Journal;
use crate::trace::{Finalize, Trace};

verus! {

/// `std::path::Path`, a borrowed file system path. Nothing is claimed of
/// what it holds.
#[verifier::external_type_specification]
#[verifier::external_body]
pub struct ExPath(std::path::Path);

/// `std::path::PathBuf`, an owned file system path. Nothing is claimed of
/// what it holds.
#[verifier::external_type_specification]
#[verifier::external_body]
pub struct ExPathBuf(std::path::PathBuf);

impl<T: ?Sized> Finalize for &'static T {
    fn finalize(&self, journal: &mut Journal)
        ensures
            final(journal)@ == old(journal)@,
    {
    }
}

impl<T: ?Sized> Trace for &'static T {
    fn trace(&self, journal: &mut Journal)
        ensures
            final(journal)@ == old(journal)@,
    {
    }

    fn root(&self, journal: &mut Journal)
        ensures
            final(journal)@ == old(journal)@,
    {
    }

    fn unroot(&self, journal: &mut Journal)
        ensures
            final(journal)@ == old(journal)@,
    {
    }

    fn finalize_glue(&self, journal: &mut Journal)
        ensures
            final(journal)@ == old(journal)@,
    {
        self.finalize(journal);
    }
}

impl Finalize for () {
    fn finalize(&self, journal: &mut Journal)
        ensures
            final(journal)@ == old(journal)@,
    {
    }
}

impl Trace for () {
    fn trace(&self, journal: &mut Journal)
        ensures
            final(journal)@ == old(journal)@,
    {
    }

    fn root(&self, journal: &mut Journal)
        ensures
            final(journal)@ == old(journal)@,
    {
    }

    fn unroot(&self, journal: &mut Journal)
        ensures
            final(journal)@ == old(journal)@,
    {
    }

    fn finalize_glue(&self, journal: &mut Journal)
        ensures
            final(journal)@ == old(journal)@,
    {
        self.finalize(journal);
    }
}

impl Finalize for bool {
    fn finalize(&self, journal: &mut Journal)
        ensures
            final(journal)@ == old(journal)@,
    {
    }
}

impl Trace for bool {
    fn trace(&self, journal: &mut Journal)
        ensures
            final(journal)@ == old(journal)@,
    {
    }

    fn root(&self, journal: &mut Journal)
        ensures
            final(journal)@ == old(journal)@,
    {
    }

    fn unroot(&self, journal: &mut Journal)
        ensures
            final(journal)@ == old(journal)@,
    {
    }

    fn finalize_glue(&self, journal: &mut Journal)
        ensures
            final(journal)@ == old(journal)@,
    {
        self.finalize(journal);
    }
}

impl Finalize for char {
    fn finalize(&self, journal: &mut Journal)
        ensures
            final(journal)@ == old(journal)@,
    {
    }
}

impl Trace for char {
    fn trace(&self, journal: &mut Journal)
        ensures
            final(journal)@ == old(journal)@,
    {
    }

    fn root(&self, journal: &mut Journal)
        ensures
            final(journal)@ == old(journal)@,
    {
    }

    fn unroot(&self, journal: &mut Journal)
        ensures
            final(journal)@ == old(journal)@,
    {
    }

    fn finalize_glue(&self, journal: &mut Journal)
        ensures
            final(journal)@ == old(journal)@,
    {
        self.finalize(journal);
    }
}

impl Finalize for i8 {
    fn finalize(&self, journal: &mut Journal)
        ensures
            final(journal)@ == old(journal)@,
    {
    }
}

impl Trace for i8 {
    fn trace(&self, journal: &mut Journal)
        ensures
            final(journal)@ == old(journal)@,
    {
    }

    fn root(&self, journal: &mut Journal)
        ensures
            final(journal)@ == old(journal)@,
    {
    }

    fn unroot(&self, journal: &mut Journal)
        ensures
            final(journal)@ == old(journal)@,
    {
    }

    fn finalize_glue(&self, journal: &mut Journal)
        ensures
            final(journal)@ == old(journal)@,
    {
        self.finalize(journal);
    }
}

impl Finalize for i16 {
    fn finalize(&self, journal: &mut Journal)
        ensures
            final(journal)@ == old(journal)@,
    {
    }
}

impl Trace for i16 {
    fn trace(&self, journal: &mut Journal)
        ensures
            final(journal)@ == old(journal)@,
    {
    }

    fn root(&self, journal: &mut Journal)
        ensures
            final(journal)@ == old(journal)@,
    {
    }

    fn unroot(&self, journal: &mut Journal)
        ensures
            final(journal)@ == old(journal)@,
    {
    }

    fn finalize_glue(&self, journal: &mut Journal)
        ensures
            final(journal)@ == old(journal)@,
    {
        self.finalize(journal);
    }
}

impl Finalize for i32 {
    fn finalize(&self, journal: &mut Journal)
        ensures
            final(journal)@ == old(journal)@,
    {
    }
}

impl Trace for i32 {
    fn trace(&self, journal: &mut Journal)
        ensures
            final(journal)@ == old(journal)@,
    {
    }

    fn root(&self, journal: &mut Journal)
        ensures
            final(journal)@ == old(journal)@,
    {
    }

    fn unroot(&self, journal: &mut Journal)
        ensures
            final(journal)@ == old(journal)@,
    {
    }

    fn finalize_glue(&self, journal: &mut Journal)
        ensures
            final(journal)@ == old(journal)@,
    {
        self.finalize(journal);
    }
}

impl Finalize for i64 {
    fn finalize(&self, journal: &mut Journal)
        ensures
            final(journal)@ == old(journal)@,
    {
    }
}

impl Trace for i64 {
    fn trace(&self, journal: &mut Journal)
        ensures
            final(journal)@ == old(journal)@,
    {
    }

    fn root(&self, journal: &mut Journal)
        ensures
            final(journal)@ == old(journal)@,
    {
    }

    fn unroot(&self, journal: &mut Journal)
        ensures
            final(journal)@ == old(journal)@,
    {
    }

    fn finalize_glue(&self, journal: &mut Journal)
        ensures
            final(journal)@ == old(journal)@,
    {
        self.finalize(journal);
    }
}

impl Finalize for i128 {
    fn finalize(&self, journal: &mut Journal)
        ensures
            final(journal)@ == old(journal)@,
    {
    }
}

impl Trace for i128 {
    fn trace(&self, journal: &mut Journal)
        ensures
            final(journal)@ == old(journal)@,
    {
    }

    fn root(&self, journal: &mut Journal)
        ensures
            final(journal)@ == old(journal)@,
    {
    }

    fn unroot(&self, journal: &mut Journal)
        ensures
            final(journal)@ == old(journal)@,
    {
    }

    fn finalize_glue(&self, journal: &mut Journal)
        ensures
            final(journal)@ == old(journal)@,
    {
        self.finalize(journal);
    }
}

impl Finalize for isize {
    fn finalize(&self, journal: &mut Journal)
        ensures
            final(journal)@ == old(journal)@,
    {
    }
}

impl Trace for isize {
    fn trace(&self, journal: &mut Journal)
        ensures
            final(journal)@ == old(journal)@,
    {
    }

    fn root(&self, journal: &mut Journal)
        ensures
            final(journal)@ == old(journal)@,
    {
    }

    fn unroot(&self, journal: &mut Journal)
        ensures
            final(journal)@ == old(journal)@,
    {
    }

    fn finalize_glue(&self, journal: &mut Journal)
        ensures
            final(journal)@ == old(journal)@,
    {
        self.finalize(journal);
    }
}

impl Finalize for u8 {
    fn finalize(&self, journal: &mut Journal)
        ensures
            final(journal)@ == old(journal)@,
    {
    }
}

impl Trace for u8 {
    fn trace(&self, journal: &mut Journal)
        ensures
            final(journal)@ == old(journal)@,
    {
    }

    fn root(&self, journal: &mut Journal)
        ensures
            final(journal)@ == old(journal)@,
    {
    }

    fn unroot(&self, journal: &mut Journal)
        ensures
            final(journal)@ == old(journal)@,
    {
    }

    fn finalize_glue(&self, journal: &mut Journal)
        ensures
            final(journal)@ == old(journal)@,
    {
        self.finalize(journal);
    }
}

impl Finalize for u16 {
    fn finalize(&self, journal: &mut Journal)
        ensures
            final(journal)@ == old(journal)@,
    {
    }
}

impl Trace for u16 {
    fn trace(&self, journal: &mut Journal)
        ensures
            final(journal)@ == old(journal)@,
    {
    }

    fn root(&self, journal: &mut Journal)
        ensures
            final(journal)@ == old(journal)@,
    {
    }

    fn unroot(&self, journal: &mut Journal)
        ensures
            final(journal)@ == old(journal)@,
    {
    }

    fn finalize_glue(&self, journal: &mut Journal)
        ensures
            final(journal)@ == old(journal)@,
    {
        self.finalize(journal);
    }
}

impl Finalize for u32 {
    fn finalize(&self, journal: &mut Journal)
        ensures
            final(journal)@ == old(journal)@,
    {
    }
}

impl Trace for u32 {
    fn trace(&self, journal: &mut Journal)
        ensures
            final(journal)@ == old(journal)@,
    {
    }

    fn root(&self, journal: &mut Journal)
        ensures
            final(journal)@ == old(journal)@,
    {
    }

    fn unroot(&self, journal: &mut Journal)
        ensures
            final(journal)@ == old(journal)@,
    {
    }

    fn finalize_glue(&self, journal: &mut Journal)
        ensures
            final(journal)@ == old(journal)@,
    {
        self.finalize(journal);
    }
}

impl Finalize for u64 {
    fn finalize(&self, journal: &mut Journal)
        ensures
            final(journal)@ == old(journal)@,
    {
    }
}

impl Trace for u64 {
    fn trace(&self, journal: &mut Journal)
        ensures
            final(journal)@ == old(journal)@,
    {
    }

    fn root(&self, journal: &mut Journal)
        ensures
            final(journal)@ == old(journal)@,
    {
    }

    fn unroot(&self, journal: &mut Journal)
        ensures
            final(journal)@ == old(journal)@,
    {
    }

    fn finalize_glue(&self, journal: &mut Journal)
        ensures
            final(journal)@ == old(journal)@,
    {
        self.finalize(journal);
    }
}

impl Finalize for u128 {
    fn finalize(&self, journal: &mut Journal)
        ensures
            final(journal)@ == old(journal)@,
    {
    }
}

impl Trace for u128 {
    fn trace(&self, journal: &mut Journal)
        ensures
            final(journal)@ == old(journal)@,
    {
    }

    fn root(&self, journal: &mut Journal)
        ensures
            final(journal)@ == old(journal)@,
    {
    }

    fn unroot(&self, journal: &mut Journal)
        ensures
            final(journal)@ == old(journal)@,
    {
    }

    fn finalize_glue(&self, journal: &mut Journal)
        ensures
            final(journal)@ == old(journal)@,
    {
        self.finalize(journal);
    }
}

impl Finalize for usize {
    fn finalize(&self, journal: &mut Journal)
        ensures
            final(journal)@ == old(journal)@,
    {
    }
}

impl Trace for usize {
    fn trace(&self, journal: &mut Journal)
        ensures
            final(journal)@ == old(journal)@,
    {
    }

    fn root(&self, journal: &mut Journal)
        ensures
            final(journal)@ == old(journal)@,
    {
    }

    fn unroot(&self, journal: &mut Journal)
        ensures
            final(journal)@ == old(journal)@,
    {
    }

    fn finalize_glue(&self, journal: &mut Journal)
        ensures
            final(journal)@ == old(journal)@,
    {
        self.finalize(journal);
    }
}

impl Finalize for String {
    fn finalize(&self, journal: &mut Journal)
        ensures
            final(journal)@ == old(journal)@,
    {
    }
}

impl Trace for String {
    fn trace(&self, journal: &mut Journal)
        ensures
            final(journal)@ == old(journal)@,
    {
    }

    fn root(&self, journal: &mut Journal)
        ensures
            final(journal)@ == old(journal)@,
    {
    }

    fn unroot(&self, journal: &mut Journal)
        ensures
            final(journal)@ == old(journal)@,
    {
    }

    fn finalize_glue(&self, journal: &mut Journal)
        ensures
            final(journal)@ == old(journal)@,
    {
        self.finalize(journal);
    }
}

impl Finalize for Path {
    fn finalize(&self, journal: &mut Journal)
        ensures
            final(journal)@ == old(journal)@,
    {
    }
}

impl Trace for Path {
    fn trace(&self, journal: &mut Journal)
        ensures
            final(journal)@ == old(journal)@,
    {
    }

    fn root(&self, journal: &mut Journal)
        ensures
            final(journal)@ == old(journal)@,
    {
    }

    fn unroot(&self, journal: &mut Journal)
        ensures
            final(journal)@ == old(journal)@,
    {
    }

    fn finalize_glue(&self, journal: &mut Journal)
        ensures
            final(journal)@ == old(journal)@,
    {
        self.finalize(journal);
    }
}

impl Finalize for PathBuf {
    fn finalize(&self, journal: &mut Journal)
        ensures
            final(journal)@ == old(journal)@,
    {
    }
}

impl Trace for PathBuf {
    fn trace(&self, journal: &mut Journal)
        ensures
            final(journal)@ == old(journal)@,
    {
    }

    fn root(&self, journal: &mut Journal)
        ensures
            final(journal)@ == old(journal)@,
    {
    }

    fn unroot(&self, journal: &mut Journal)
        ensures
            final(journal)@ == old(journal)@,
    {
    }

    fn finalize_glue(&self, journal: &mut Journal)
        ensures
            final(journal)@ == old(journal)@,
    {
        self.finalize(journal);
    }
}

impl Finalize for AtomicBool {
    fn finalize(&self, journal: &mut Journal)
        ensures
            final(journal)@ == old(journal)@,
    {
    }
}

impl Trace for AtomicBool {
    fn trace(&self, journal: &mut Journal)
        ensures
            final(journal)@ == old(journal)@,
    {
    }

    fn root(&self, journal: &mut Journal)
        ensures
            final(journal)@ == old(journal)@,
    {
    }

    fn unroot(&self, journal: &mut Journal)
        ensures
            final(journal)@ == old(journal)@,
    {
    }

    fn finalize_glue(&self, journal: &mut Journal)
        ensures
            final(journal)@ == old(journal)@,
    {
        self.finalize(journal);
    }
}

impl Finalize for AtomicIsize {
    fn finalize(&self, journal: &mut Journal)
        ensures
            final(journal)@ == old(journal)@,
    {
    }
}

impl Trace for AtomicIsize {
    fn trace(&self, journal: &mut Journal)
        ensures
            final(journal)@ == old(journal)@,
    {
    }

    fn root(&self, journal: &mut Journal)
        ensures
            final(journal)@ == old(journal)@,
    {
    }

    fn unroot(&self, journal: &mut Journal)
        ensures
            final(journal)@ == old(journal)@,
    {
    }

    fn finalize_glue(&self, journal: &mut Journal)
        ensures
            final(journal)@ == old(journal)@,
    {
        self.finalize(journal);
    }
}

impl Finalize for AtomicUsize {
    fn finalize(&self, journal: &mut Journal)
        ensures
            final(journal)@ == old(journal)@,
    {
    }
}

impl Trace for AtomicUsize {
    fn trace(&self, journal: &mut Journal)
        ensures
            final(journal)@ == old(journal)@,
    {
    }

    fn root(&self, journal: &mut Journal)
        ensures
            final(journal)@ == old(journal)@,
    {
    }

    fn unroot(&self, journal: &mut Journal)
        ensures
            final(journal)@ == old(journal)@,
    {
    }

    fn finalize_glue(&self, journal: &mut Journal)
        ensures
            final(journal)@ == old(journal)@,
    {
        self.finalize(journal);
    }
}

} // verus!
