use gc::journal::{Journal, Pass};
use gc::trace::{Finalize, Trace};
use std::collections::{BTreeMap, HashMap, VecDeque};

/// A managed pointer, known by the number of its cell.
struct Ptr(usize);

impl Finalize for Ptr {
    fn finalize(&self, _journal: &mut Journal) {}
}

impl Trace for Ptr {
    fn trace(&self, journal: &mut Journal) {
        journal.record(Pass::Trace, self.0);
    }

    fn root(&self, journal: &mut Journal) {
        journal.record(Pass::Root, self.0);
    }

    fn unroot(&self, journal: &mut Journal) {
        journal.record(Pass::Unroot, self.0);
    }

    fn finalize_glue(&self, journal: &mut Journal) {
        self.finalize(journal);
        journal.record(Pass::FinalizeGlue, self.0);
    }
}

/// The root count of the cell `p`, as far as the journal has moved it.
fn root_count(journal: &Journal, p: usize) -> i64 {
    let n = journal.root_count(p);
    assert_eq!(n, journal.count(Pass::Root, p) as i128 - journal.count(Pass::Unroot, p) as i128);
    n as i64
}

/// A value that holds the cell 1 three times, the cell 2 twice and the
/// cell 3 once, spread over several shapes.
fn fixture() -> (Vec<Ptr>, Option<Box<Ptr>>, HashMap<u8, [Ptr; 2]>, BTreeMap<i32, VecDeque<Ptr>>) {
    let mut hashed = HashMap::new();
    hashed.insert(0u8, [Ptr(1), Ptr(2)]);
    let mut deque = VecDeque::new();
    deque.push_back(Ptr(1));
    let mut ordered = BTreeMap::new();
    ordered.insert(-5i32, deque);
    (vec![Ptr(1), Ptr(2)], Some(Box::new(Ptr(3))), hashed, ordered)
}

#[test]
fn root_moves_each_root_count_up_by_the_number_of_places() {
    let mut journal = Journal::new();
    fixture().root(&mut journal);
    assert_eq!(root_count(&journal, 1), 3);
    assert_eq!(root_count(&journal, 2), 2);
    assert_eq!(root_count(&journal, 3), 1);
    assert_eq!(root_count(&journal, 4), 0);
}

#[test]
fn unroot_moves_each_root_count_down_by_the_number_of_places() {
    let mut journal = Journal::new();
    fixture().unroot(&mut journal);
    assert_eq!(root_count(&journal, 1), -3);
    assert_eq!(root_count(&journal, 2), -2);
    assert_eq!(root_count(&journal, 3), -1);
    assert_eq!(root_count(&journal, 4), 0);
}

#[test]
fn root_then_unroot_restores_every_root_count() {
    let mut journal = Journal::new();
    journal.record(Pass::Root, 1);
    journal.record(Pass::Root, 1);
    journal.record(Pass::Root, 3);
    let before: Vec<i64> = (0..5).map(|p| root_count(&journal, p)).collect();
    assert_eq!(before, vec![0, 2, 0, 1, 0]);
    let value = fixture();
    value.root(&mut journal);
    let rooted: Vec<i64> = (0..5).map(|p| root_count(&journal, p)).collect();
    assert_eq!(rooted, vec![0, 5, 2, 2, 0]);
    value.unroot(&mut journal);
    let after: Vec<i64> = (0..5).map(|p| root_count(&journal, p)).collect();
    assert_eq!(after, before);
}

#[test]
fn n_roots_then_n_unroots_net_to_nothing() {
    for n in [0usize, 1, 2, 7] {
        let mut journal = Journal::new();
        let value = fixture();
        for _ in 0..n {
            value.root(&mut journal);
        }
        assert_eq!(root_count(&journal, 1), 3 * n as i64);
        assert_eq!(root_count(&journal, 2), 2 * n as i64);
        assert_eq!(root_count(&journal, 3), n as i64);
        for _ in 0..n {
            value.unroot(&mut journal);
        }
        for p in 0..5 {
            assert_eq!(root_count(&journal, p), 0);
        }
        assert_eq!(journal.total(Pass::Root), 6 * n);
        assert_eq!(journal.total(Pass::Unroot), 6 * n);
    }
}

#[test]
fn trace_and_finalize_glue_move_no_root_count() {
    let mut journal = Journal::new();
    let value = fixture();
    value.root(&mut journal);
    let before: Vec<i64> = (0..5).map(|p| root_count(&journal, p)).collect();
    value.trace(&mut journal);
    value.finalize_glue(&mut journal);
    let after: Vec<i64> = (0..5).map(|p| root_count(&journal, p)).collect();
    assert_eq!(after, before);
    assert_eq!(journal.total(Pass::Root), 6);
    assert_eq!(journal.total(Pass::Unroot), 0);
}

#[test]
fn the_four_passes_reach_the_same_pointers() {
    let value = fixture();
    let mut journal = Journal::new();
    value.trace(&mut journal);
    value.root(&mut journal);
    value.unroot(&mut journal);
    value.finalize_glue(&mut journal);
    for p in 0..5 {
        let traced = journal.count(Pass::Trace, p);
        assert_eq!(journal.count(Pass::Root, p), traced);
        assert_eq!(journal.count(Pass::Unroot, p), traced);
        assert_eq!(journal.count(Pass::FinalizeGlue, p), traced);
    }
    assert_eq!(journal.total(Pass::Trace), 6);
}

#[test]
fn a_pass_reaches_the_same_pointers_every_time() {
    let value = fixture();
    let mut first = Journal::new();
    let mut second = Journal::new();
    value.trace(&mut first);
    value.trace(&mut second);
    for p in 0..5 {
        assert_eq!(first.count(Pass::Trace, p), second.count(Pass::Trace, p));
    }
    assert_eq!(first.total(Pass::Trace), second.total(Pass::Trace));
}
