//! Hashed and ordered sets and maps. Each of them hands a pass on to every
//! value that it holds, once, keys and values alike, and owns no pointer
//! beyond theirs. Such a collection walks over each of its entries once
//! only where its keys hash and compare lawfully, so the key types are
//! those of which that is known.

use vstd::prelude::*;
use std::collections::{BTreeMap, BTreeSet, HashMap, HashSet};
use crate::journal::{Footprint, Journal, Pass};
use crate::trace::{mark, Finalize, Trace};

verus! {

/// A type whose values can be the keys of a hashed collection: equal values
/// hash alike, so such a collection holds no key twice.
pub trait HashKey: Sized {
    proof fn hashes_as_it_compares()
        ensures
            vstd::std_specs::hash::obeys_key_model::<Self>(),
    ;
}

/// A type whose values can be the keys of an ordered collection: its
/// comparison is a total order, so such a collection holds no key twice.
pub trait OrdKey: Sized {
    proof fn compares_as_an_order()
        ensures
            vstd::std_specs::btree::key_obeys_cmp_spec::<Self>(),
    ;
}

impl HashKey for bool {
    proof fn hashes_as_it_compares() {
        broadcast use vstd::std_specs::hash::group_hash_axioms;
    }
}

impl HashKey for u8 {
    proof fn hashes_as_it_compares() {
        broadcast use vstd::std_specs::hash::group_hash_axioms;
    }
}

impl HashKey for u16 {
    proof fn hashes_as_it_compares() {
        broadcast use vstd::std_specs::hash::group_hash_axioms;
    }
}

impl HashKey for u32 {
    proof fn hashes_as_it_compares() {
        broadcast use vstd::std_specs::hash::group_hash_axioms;
    }
}

impl HashKey for u64 {
    proof fn hashes_as_it_compares() {
        broadcast use vstd::std_specs::hash::group_hash_axioms;
    }
}

impl HashKey for u128 {
    proof fn hashes_as_it_compares() {
        broadcast use vstd::std_specs::hash::group_hash_axioms;
    }
}

impl HashKey for usize {
    proof fn hashes_as_it_compares() {
        broadcast use vstd::std_specs::hash::group_hash_axioms;
    }
}

impl HashKey for i8 {
    proof fn hashes_as_it_compares() {
        broadcast use vstd::std_specs::hash::group_hash_axioms;
    }
}

impl HashKey for i16 {
    proof fn hashes_as_it_compares() {
        broadcast use vstd::std_specs::hash::group_hash_axioms;
    }
}

impl HashKey for i32 {
    proof fn hashes_as_it_compares() {
        broadcast use vstd::std_specs::hash::group_hash_axioms;
    }
}

impl HashKey for i64 {
    proof fn hashes_as_it_compares() {
        broadcast use vstd::std_specs::hash::group_hash_axioms;
    }
}

impl HashKey for i128 {
    proof fn hashes_as_it_compares() {
        broadcast use vstd::std_specs::hash::group_hash_axioms;
    }
}

impl HashKey for isize {
    proof fn hashes_as_it_compares() {
        broadcast use vstd::std_specs::hash::group_hash_axioms;
    }
}

impl OrdKey for u8 {
    proof fn compares_as_an_order() {
        broadcast use vstd::std_specs::btree::group_btree_axioms;
        broadcast use vstd::laws_cmp::group_laws_cmp;
    }
}

impl OrdKey for u16 {
    proof fn compares_as_an_order() {
        broadcast use vstd::std_specs::btree::group_btree_axioms;
        broadcast use vstd::laws_cmp::group_laws_cmp;
    }
}

impl OrdKey for u32 {
    proof fn compares_as_an_order() {
        broadcast use vstd::std_specs::btree::group_btree_axioms;
        broadcast use vstd::laws_cmp::group_laws_cmp;
    }
}

impl OrdKey for u64 {
    proof fn compares_as_an_order() {
        broadcast use vstd::std_specs::btree::group_btree_axioms;
        broadcast use vstd::laws_cmp::group_laws_cmp;
    }
}

impl OrdKey for u128 {
    proof fn compares_as_an_order() {
        broadcast use vstd::std_specs::btree::group_btree_axioms;
        broadcast use vstd::laws_cmp::group_laws_cmp;
    }
}

impl OrdKey for usize {
    proof fn compares_as_an_order() {
        broadcast use vstd::std_specs::btree::group_btree_axioms;
        broadcast use vstd::laws_cmp::group_laws_cmp;
    }
}

impl OrdKey for i8 {
    proof fn compares_as_an_order() {
        broadcast use vstd::std_specs::btree::group_btree_axioms;
        broadcast use vstd::laws_cmp::group_laws_cmp;
    }
}

impl OrdKey for i16 {
    proof fn compares_as_an_order() {
        broadcast use vstd::std_specs::btree::group_btree_axioms;
        broadcast use vstd::laws_cmp::group_laws_cmp;
    }
}

impl OrdKey for i32 {
    proof fn compares_as_an_order() {
        broadcast use vstd::std_specs::btree::group_btree_axioms;
        broadcast use vstd::laws_cmp::group_laws_cmp;
    }
}

impl OrdKey for i64 {
    proof fn compares_as_an_order() {
        broadcast use vstd::std_specs::btree::group_btree_axioms;
        broadcast use vstd::laws_cmp::group_laws_cmp;
    }
}

impl OrdKey for i128 {
    proof fn compares_as_an_order() {
        broadcast use vstd::std_specs::btree::group_btree_axioms;
        broadcast use vstd::laws_cmp::group_laws_cmp;
    }
}

impl OrdKey for isize {
    proof fn compares_as_an_order() {
        broadcast use vstd::std_specs::btree::group_btree_axioms;
        broadcast use vstd::laws_cmp::group_laws_cmp;
    }
}

/// Runs `pass` on each value in `this`, in the order in which the set hands
/// them out.
fn mark_hash_set<T: Trace + HashKey>(pass: Pass, this: &HashSet<T>, journal: &mut Journal)
    ensures
        final(journal)@ == old(journal)@.apply(pass, this.footprint()),
{
    broadcast use vstd::std_specs::hash::group_hash_axioms;

    proof {
        T::hashes_as_it_compares();
        crate::sums::lemma_apply_empty(journal@, pass);
    }
    let ghost mut done: Seq<T> = Seq::empty();
    for x in it: this.iter()
        invariant
            it.seq() == vstd::std_specs::iter::IteratorSpec::remaining(
                &vstd::std_specs::hash::spec_hash_keys_iter(this),
            ),
            done.len() == it.index(),
            forall|i: int| 0 <= i < done.len() ==> done[i] == *it.seq()[i],
            journal@ == old(journal)@.apply(pass, crate::sums::sum_footprints(done)),
    {
        proof {
            assert(done.push(*x).drop_last() =~= done);
            crate::sums::lemma_apply_join(
                old(journal)@,
                pass,
                crate::sums::sum_footprints(done),
                x.footprint(),
            );
            done = done.push(*x);
        }
        mark(pass, x, journal);
    }
    proof {
        let walked = vstd::std_specs::iter::IteratorSpec::remaining(
            &vstd::std_specs::hash::spec_hash_keys_iter(this),
        );
        assert(done =~= walked.unref());
        assert(done.no_duplicates()) by {
            assert forall|i: int, j: int|
                0 <= i < done.len() && 0 <= j < done.len() && i != j implies done[i] != done[j] by {
                assert(walked[i] != walked[j]);
            }
        }
        crate::sums::lemma_sum_listing(done, this@);
    }
}

impl<T: Trace + HashKey> Finalize for HashSet<T> {
    fn finalize(&self, journal: &mut Journal) {
    }
}

impl<T: Trace + HashKey> Trace for HashSet<T> {
    open spec fn footprint(&self) -> Footprint {
        crate::sums::sum_footprints(self@.to_seq())
    }

    fn trace(&self, journal: &mut Journal) {
        mark_hash_set(Pass::Trace, self, journal);
    }

    fn root(&self, journal: &mut Journal) {
        mark_hash_set(Pass::Root, self, journal);
    }

    fn unroot(&self, journal: &mut Journal) {
        mark_hash_set(Pass::Unroot, self, journal);
    }

    fn finalize_glue(&self, journal: &mut Journal) {
        self.finalize(journal);
        mark_hash_set(Pass::FinalizeGlue, self, journal);
    }
}

/// Runs `pass` on the key and on the value of each entry of `this`,
/// in the order in which the map hands them out.
fn mark_hash_map<K: Trace + HashKey, V: Trace>(
    pass: Pass,
    this: &HashMap<K, V>,
    journal: &mut Journal,
)
    ensures
        final(journal)@ == old(journal)@.apply(pass, this.footprint()),
{
    broadcast use vstd::std_specs::hash::group_hash_axioms;

    proof {
        K::hashes_as_it_compares();
        crate::sums::lemma_apply_empty(journal@, pass);
    }
    let ghost mut done: Seq<(K, V)> = Seq::empty();
    for entry in it: this.iter()
        invariant
            it.seq() == vstd::std_specs::iter::IteratorSpec::remaining(
                &vstd::std_specs::hash::spec_hash_map_iter(this),
            ),
            done.len() == it.index(),
            forall|i: int| 0 <= i < done.len() ==> done[i] == (*it.seq()[i].0, *it.seq()[i].1),
            journal@ == old(journal)@.apply(pass, crate::sums::sum_footprints(done)),
    {
        let (k, v) = entry;
        proof {
            let pair = (*k, *v);
            assert(done.push(pair).drop_last() =~= done);
            crate::sums::lemma_apply_join(
                old(journal)@,
                pass,
                crate::sums::sum_footprints(done),
                pair.footprint(),
            );
            crate::sums::lemma_apply_join(journal@, pass, k.footprint(), v.footprint());
            done = done.push(pair);
        }
        mark(pass, k, journal);
        mark(pass, v, journal);
    }
    proof {
        let walked = vstd::std_specs::iter::IteratorSpec::remaining(
            &vstd::std_specs::hash::spec_hash_map_iter(this),
        );
        assert(done =~= walked.unref());
        assert(done.no_duplicates()) by {
            assert forall|i: int, j: int|
                0 <= i < done.len() && 0 <= j < done.len() && i != j implies done[i] != done[j] by {
                assert(walked[i] != walked[j]);
            }
        }
        crate::sums::lemma_sum_listing(done, this@.kv_pairs());
    }
}

impl<K: Trace + HashKey, V: Trace> Finalize for HashMap<K, V> {
    fn finalize(&self, journal: &mut Journal) {
    }
}

impl<K: Trace + HashKey, V: Trace> Trace for HashMap<K, V> {
    open spec fn footprint(&self) -> Footprint {
        crate::sums::sum_footprints(self@.kv_pairs().to_seq())
    }

    fn trace(&self, journal: &mut Journal) {
        mark_hash_map(Pass::Trace, self, journal);
    }

    fn root(&self, journal: &mut Journal) {
        mark_hash_map(Pass::Root, self, journal);
    }

    fn unroot(&self, journal: &mut Journal) {
        mark_hash_map(Pass::Unroot, self, journal);
    }

    fn finalize_glue(&self, journal: &mut Journal) {
        self.finalize(journal);
        mark_hash_map(Pass::FinalizeGlue, self, journal);
    }
}

/// Runs `pass` on each value in `this`, from the least to the greatest.
fn mark_btree_set<T: Trace + OrdKey>(pass: Pass, this: &BTreeSet<T>, journal: &mut Journal)
    ensures
        final(journal)@ == old(journal)@.apply(pass, this.footprint()),
{
    broadcast use vstd::std_specs::btree::group_btree_axioms;

    proof {
        T::compares_as_an_order();
        crate::sums::lemma_apply_empty(journal@, pass);
    }
    let ghost mut done: Seq<T> = Seq::empty();
    for x in it: this.iter()
        invariant
            it.seq() == vstd::std_specs::iter::IteratorSpec::remaining(
                &vstd::std_specs::btree::spec_btree_keys_iter(this),
            ),
            done.len() == it.index(),
            forall|i: int| 0 <= i < done.len() ==> done[i] == *it.seq()[i],
            journal@ == old(journal)@.apply(pass, crate::sums::sum_footprints(done)),
    {
        proof {
            assert(done.push(*x).drop_last() =~= done);
            crate::sums::lemma_apply_join(
                old(journal)@,
                pass,
                crate::sums::sum_footprints(done),
                x.footprint(),
            );
            done = done.push(*x);
        }
        mark(pass, x, journal);
    }
    proof {
        let walked = vstd::std_specs::iter::IteratorSpec::remaining(
            &vstd::std_specs::btree::spec_btree_keys_iter(this),
        );
        assert(done =~= walked.unref());
        assert(done.no_duplicates()) by {
            assert forall|i: int, j: int|
                0 <= i < done.len() && 0 <= j < done.len() && i != j implies done[i] != done[j] by {
                assert(walked[i] != walked[j]);
            }
        }
        crate::sums::lemma_sum_listing(done, this@);
    }
}

impl<T: Trace + OrdKey> Finalize for BTreeSet<T> {
    fn finalize(&self, journal: &mut Journal) {
    }
}

impl<T: Trace + OrdKey> Trace for BTreeSet<T> {
    open spec fn footprint(&self) -> Footprint {
        crate::sums::sum_footprints(self@.to_seq())
    }

    fn trace(&self, journal: &mut Journal) {
        mark_btree_set(Pass::Trace, self, journal);
    }

    fn root(&self, journal: &mut Journal) {
        mark_btree_set(Pass::Root, self, journal);
    }

    fn unroot(&self, journal: &mut Journal) {
        mark_btree_set(Pass::Unroot, self, journal);
    }

    fn finalize_glue(&self, journal: &mut Journal) {
        self.finalize(journal);
        mark_btree_set(Pass::FinalizeGlue, self, journal);
    }
}

/// Runs `pass` on the key and on the value of each entry of `this`,
/// from the least key to the greatest.
fn mark_btree_map<K: Trace + OrdKey, V: Trace>(
    pass: Pass,
    this: &BTreeMap<K, V>,
    journal: &mut Journal,
)
    ensures
        final(journal)@ == old(journal)@.apply(pass, this.footprint()),
{
    broadcast use vstd::std_specs::btree::group_btree_axioms;

    proof {
        K::compares_as_an_order();
        crate::sums::lemma_apply_empty(journal@, pass);
    }
    let ghost mut done: Seq<(K, V)> = Seq::empty();
    for entry in it: this.iter()
        invariant
            it.seq() == vstd::std_specs::iter::IteratorSpec::remaining(
                &vstd::std_specs::btree::spec_btree_map_iter(this),
            ),
            done.len() == it.index(),
            forall|i: int| 0 <= i < done.len() ==> done[i] == (*it.seq()[i].0, *it.seq()[i].1),
            journal@ == old(journal)@.apply(pass, crate::sums::sum_footprints(done)),
    {
        let (k, v) = entry;
        proof {
            let pair = (*k, *v);
            assert(done.push(pair).drop_last() =~= done);
            crate::sums::lemma_apply_join(
                old(journal)@,
                pass,
                crate::sums::sum_footprints(done),
                pair.footprint(),
            );
            crate::sums::lemma_apply_join(journal@, pass, k.footprint(), v.footprint());
            done = done.push(pair);
        }
        mark(pass, k, journal);
        mark(pass, v, journal);
    }
    proof {
        let walked = vstd::std_specs::iter::IteratorSpec::remaining(
            &vstd::std_specs::btree::spec_btree_map_iter(this),
        );
        assert(done =~= walked.unref());
        assert(done.no_duplicates()) by {
            assert forall|i: int, j: int|
                0 <= i < done.len() && 0 <= j < done.len() && i != j implies done[i] != done[j] by {
                assert(walked[i] != walked[j]);
            }
        }
        crate::sums::lemma_sum_listing(done, this@.kv_pairs());
    }
}

impl<K: Trace + OrdKey, V: Trace> Finalize for BTreeMap<K, V> {
    fn finalize(&self, journal: &mut Journal) {
    }
}

impl<K: Trace + OrdKey, V: Trace> Trace for BTreeMap<K, V> {
    open spec fn footprint(&self) -> Footprint {
        crate::sums::sum_footprints(self@.kv_pairs().to_seq())
    }

    fn trace(&self, journal: &mut Journal) {
        mark_btree_map(Pass::Trace, self, journal);
    }

    fn root(&self, journal: &mut Journal) {
        mark_btree_map(Pass::Root, self, journal);
    }

    fn unroot(&self, journal: &mut Journal) {
        mark_btree_map(Pass::Unroot, self, journal);
    }

    fn finalize_glue(&self, journal: &mut Journal) {
        self.finalize(journal);
        mark_btree_map(Pass::FinalizeGlue, self, journal);
    }
}

} // verus!
