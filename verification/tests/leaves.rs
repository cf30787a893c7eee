use gc::journal::{Journal, Pass};
use gc::trace::{mark, Finalize, Trace};
use std::path::{Path, PathBuf};
use std::sync::atomic::{AtomicBool, AtomicIsize, AtomicUsize};

/// Runs the cleanup action and all four passes on `value` and says whether
/// the journal is still empty.
fn untouched<T: Trace + ?Sized>(value: &T) -> bool {
    let mut journal = Journal::new();
    value.finalize(&mut journal);
    value.trace(&mut journal);
    value.root(&mut journal);
    value.unroot(&mut journal);
    value.finalize_glue(&mut journal);
    for pass in [Pass::Trace, Pass::Root, Pass::Unroot, Pass::FinalizeGlue] {
        mark(pass, value, &mut journal);
    }
    journal.is_empty()
}

#[test]
fn unit_is_a_leaf() {
    assert!(untouched(&()));
}

#[test]
fn bool_and_char_are_leaves() {
    assert!(untouched(&true));
    assert!(untouched(&false));
    assert!(untouched(&'x'));
}

#[test]
fn unsigned_integers_are_leaves() {
    assert!(untouched(&u8::MAX));
    assert!(untouched(&u16::MAX));
    assert!(untouched(&u32::MAX));
    assert!(untouched(&u64::MAX));
    assert!(untouched(&u128::MAX));
    assert!(untouched(&usize::MAX));
    assert!(untouched(&0u8));
}

#[test]
fn signed_integers_are_leaves() {
    assert!(untouched(&i8::MIN));
    assert!(untouched(&i16::MIN));
    assert!(untouched(&i32::MIN));
    assert!(untouched(&i64::MIN));
    assert!(untouched(&i128::MIN));
    assert!(untouched(&isize::MIN));
    assert!(untouched(&-1i32));
}

#[test]
fn strings_are_leaves() {
    assert!(untouched(&String::new()));
    assert!(untouched(&String::from("a managed pointer in name only")));
}

#[test]
fn paths_are_leaves() {
    assert!(untouched(Path::new("/tmp/heap")));
    assert!(untouched(&PathBuf::from("/tmp/heap")));
    assert!(untouched(&PathBuf::new()));
}

#[test]
fn atomics_are_leaves() {
    assert!(untouched(&AtomicBool::new(true)));
    assert!(untouched(&AtomicIsize::new(-3)));
    assert!(untouched(&AtomicUsize::new(3)));
}

#[test]
fn static_references_are_leaves() {
    let text: &'static str = "static";
    assert!(untouched(&text));
    let numbers: &'static [u32] = &[1, 2, 3];
    assert!(untouched(&numbers));
    let number: &'static u64 = &9;
    assert!(untouched(&number));
}

#[test]
fn composites_of_leaves_are_untouched() {
    assert!(untouched(&vec![1u8, 2, 3]));
    assert!(untouched(&Some(String::from("x"))));
    assert!(untouched(&(1u8, 'c', false)));
    assert!(untouched(&[0i64; 32]));
    assert!(untouched(&Box::new(7usize)));
    let outcome: Result<u8, String> = Err(String::from("no"));
    assert!(untouched(&outcome));
}

/// A leaf with a cleanup action of its own.
struct Sentinel(usize);

impl Finalize for Sentinel {
    fn finalize(&self, journal: &mut Journal) {
        journal.record_finalize(self.0);
    }
}

impl Trace for Sentinel {
    fn trace(&self, _journal: &mut Journal) {}

    fn root(&self, _journal: &mut Journal) {}

    fn unroot(&self, _journal: &mut Journal) {}

    fn finalize_glue(&self, journal: &mut Journal) {
        self.finalize(journal);
    }
}

#[test]
fn finalizing_a_leaf_runs_its_action_once_and_reaches_no_pointer() {
    let mut journal = Journal::new();
    let leaf = Sentinel(11);
    leaf.trace(&mut journal);
    leaf.root(&mut journal);
    leaf.unroot(&mut journal);
    assert!(journal.is_empty());
    leaf.finalize_glue(&mut journal);
    assert_eq!(journal.finalize_count(11), 1);
    assert_eq!(journal.finalize_total(), 1);
    for pass in [Pass::Trace, Pass::Root, Pass::Unroot, Pass::FinalizeGlue] {
        assert_eq!(journal.total(pass), 0);
    }
}

#[test]
fn finalizing_a_composite_runs_the_action_of_each_leaf_once() {
    let mut journal = Journal::new();
    let value = (vec![Sentinel(1), Sentinel(2)], Some(Sentinel(3)), Box::new(Sentinel(1)));
    value.trace(&mut journal);
    value.root(&mut journal);
    value.unroot(&mut journal);
    assert!(journal.is_empty());
    value.finalize_glue(&mut journal);
    assert_eq!(journal.finalize_count(1), 2);
    assert_eq!(journal.finalize_count(2), 1);
    assert_eq!(journal.finalize_count(3), 1);
    assert_eq!(journal.finalize_total(), 4);
    assert_eq!(journal.total(Pass::FinalizeGlue), 0);
}
