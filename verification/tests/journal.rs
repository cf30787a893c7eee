use gc::journal::{Journal, Pass};

#[test]
fn new_journal_is_empty() {
    let journal = Journal::new();
    assert!(journal.is_empty());
    assert_eq!(journal.total(Pass::Trace), 0);
    assert_eq!(journal.total(Pass::Root), 0);
    assert_eq!(journal.total(Pass::Unroot), 0);
    assert_eq!(journal.total(Pass::FinalizeGlue), 0);
    assert_eq!(journal.finalize_total(), 0);
    assert_eq!(journal.count(Pass::Trace, 0), 0);
    assert_eq!(journal.finalize_count(0), 0);
}

#[test]
fn record_counts_under_its_pass_only() {
    let mut journal = Journal::new();
    journal.record(Pass::Root, 7);
    journal.record(Pass::Root, 7);
    journal.record(Pass::Root, 8);
    journal.record(Pass::Unroot, 7);
    assert!(!journal.is_empty());
    assert_eq!(journal.count(Pass::Root, 7), 2);
    assert_eq!(journal.count(Pass::Root, 8), 1);
    assert_eq!(journal.count(Pass::Root, 9), 0);
    assert_eq!(journal.count(Pass::Unroot, 7), 1);
    assert_eq!(journal.count(Pass::Unroot, 8), 0);
    assert_eq!(journal.count(Pass::Trace, 7), 0);
    assert_eq!(journal.count(Pass::FinalizeGlue, 7), 0);
    assert_eq!(journal.total(Pass::Root), 3);
    assert_eq!(journal.total(Pass::Unroot), 1);
    assert_eq!(journal.total(Pass::Trace), 0);
    assert_eq!(journal.finalize_total(), 0);
}

#[test]
fn record_keeps_each_pass_apart() {
    let mut journal = Journal::new();
    journal.record(Pass::Trace, 1);
    journal.record(Pass::FinalizeGlue, 2);
    assert_eq!(journal.count(Pass::Trace, 1), 1);
    assert_eq!(journal.count(Pass::Trace, 2), 0);
    assert_eq!(journal.count(Pass::FinalizeGlue, 2), 1);
    assert_eq!(journal.count(Pass::FinalizeGlue, 1), 0);
    assert_eq!(journal.total(Pass::Trace), 1);
    assert_eq!(journal.total(Pass::FinalizeGlue), 1);
}

#[test]
fn record_finalize_counts_tokens() {
    let mut journal = Journal::new();
    journal.record_finalize(5);
    journal.record_finalize(5);
    journal.record_finalize(usize::MAX);
    assert!(!journal.is_empty());
    assert_eq!(journal.finalize_count(5), 2);
    assert_eq!(journal.finalize_count(usize::MAX), 1);
    assert_eq!(journal.finalize_count(6), 0);
    assert_eq!(journal.finalize_total(), 3);
    assert_eq!(journal.total(Pass::FinalizeGlue), 0);
    assert_eq!(journal.count(Pass::FinalizeGlue, 5), 0);
}

#[test]
fn a_journal_with_one_entry_of_any_kind_is_not_empty() {
    for pass in [Pass::Trace, Pass::Root, Pass::Unroot, Pass::FinalizeGlue] {
        let mut journal = Journal::new();
        journal.record(pass, 0);
        assert!(!journal.is_empty());
    }
}

#[test]
fn root_count_is_rootings_less_unrootings() {
    let mut journal = Journal::new();
    assert_eq!(journal.root_count(4), 0);
    journal.record(Pass::Root, 4);
    journal.record(Pass::Root, 4);
    journal.record(Pass::Root, 5);
    assert_eq!(journal.root_count(4), 2);
    assert_eq!(journal.root_count(5), 1);
    journal.record(Pass::Unroot, 4);
    journal.record(Pass::Unroot, 6);
    assert_eq!(journal.root_count(4), 1);
    assert_eq!(journal.root_count(5), 1);
    assert_eq!(journal.root_count(6), -1);
    journal.record(Pass::Trace, 4);
    journal.record(Pass::FinalizeGlue, 4);
    journal.record_finalize(4);
    assert_eq!(journal.root_count(4), 1);
}
