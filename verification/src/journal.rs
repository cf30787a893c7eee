//! The record that the protocol operations leave behind.

use vstd::prelude::*;
use vstd::multiset::Multiset;

verus! {

/// One of the four operations of the protocol.
#[derive(Clone, Copy, Debug, PartialEq, Eq)]
pub enum Pass {
    /// Mark every managed pointer that the value owns as reachable.
    Trace,
    /// Count one more outside holder of every managed pointer that the value owns.
    Root,
    /// Count one outside holder less of every managed pointer that the value owns.
    Unroot,
    /// Run the cleanup actions of the value and hand the pass on to the
    /// payload of every managed pointer that it owns.
    FinalizeGlue,
}

/// What a value contributes to a pass: the managed pointers that it owns
/// directly, each as often as it holds it, and the tokens under which the
/// cleanup actions of the value and of what it holds report.
#[verifier::ext_equal]
pub struct Footprint {
    pub pointers: Multiset<usize>,
    pub cleanups: Multiset<usize>,
}

impl Footprint {
    /// The footprint of a value that owns no pointer and cleans nothing up.
    pub open spec fn empty() -> Footprint {
        Footprint { pointers: Multiset::empty(), cleanups: Multiset::empty() }
    }

    /// The footprint of a value that owns no pointer.
    pub open spec fn leaf(cleanups: Multiset<usize>) -> Footprint {
        Footprint { pointers: Multiset::empty(), cleanups }
    }

    /// The footprint of two values taken together.
    pub open spec fn join(self, other: Footprint) -> Footprint {
        Footprint {
            pointers: self.pointers.add(other.pointers),
            cleanups: self.cleanups.add(other.cleanups),
        }
    }
}

/// How often each managed pointer was reached by each of the four passes,
/// and how often each cleanup token was reported. Nothing is said about the
/// order in which this happened.
#[verifier::ext_equal]
pub struct Ledger {
    pub traced: Multiset<usize>,
    pub rooted: Multiset<usize>,
    pub unrooted: Multiset<usize>,
    pub glued: Multiset<usize>,
    pub finalized: Multiset<usize>,
}

impl Ledger {
    /// The ledger in which nothing has happened yet.
    pub open spec fn empty() -> Ledger {
        Ledger {
            traced: Multiset::empty(),
            rooted: Multiset::empty(),
            unrooted: Multiset::empty(),
            glued: Multiset::empty(),
            finalized: Multiset::empty(),
        }
    }

    /// The pointers that `pass` has reached.
    pub open spec fn reached(self, pass: Pass) -> Multiset<usize> {
        match pass {
            Pass::Trace => self.traced,
            Pass::Root => self.rooted,
            Pass::Unroot => self.unrooted,
            Pass::FinalizeGlue => self.glued,
        }
    }

    /// The ledger after `pass` has reached `pointers` once more.
    pub open spec fn reach(self, pass: Pass, pointers: Multiset<usize>) -> Ledger {
        match pass {
            Pass::Trace => Ledger { traced: self.traced.add(pointers), ..self },
            Pass::Root => Ledger { rooted: self.rooted.add(pointers), ..self },
            Pass::Unroot => Ledger { unrooted: self.unrooted.add(pointers), ..self },
            Pass::FinalizeGlue => Ledger { glued: self.glued.add(pointers), ..self },
        }
    }

    /// The ledger after cleanup actions have reported under `tokens`.
    pub open spec fn finalize(self, tokens: Multiset<usize>) -> Ledger {
        Ledger { finalized: self.finalized.add(tokens), ..self }
    }

    /// The ledger after `pass` has gone once over a value with the given
    /// footprint. Only the finalizing pass runs cleanup actions.
    pub open spec fn apply(self, pass: Pass, footprint: Footprint) -> Ledger {
        match pass {
            Pass::FinalizeGlue => self.finalize(footprint.cleanups).reach(pass, footprint.pointers),
            _ => self.reach(pass, footprint.pointers),
        }
    }

    /// The change that the recorded passes have made to the number of
    /// outside holders of `p`.
    pub open spec fn root_count(self, p: usize) -> int {
        self.rooted.count(p) - self.unrooted.count(p)
    }
}

/// The record that is handed through every operation of the protocol. A
/// managed pointer writes into it when a pass reaches it, and a cleanup
/// action when it runs; the collector reads the counts back.
pub struct Journal {
    traced: Vec<usize>,
    rooted: Vec<usize>,
    unrooted: Vec<usize>,
    glued: Vec<usize>,
    finalized: Vec<usize>,
}

impl View for Journal {
    type V = Ledger;

    closed spec fn view(&self) -> Ledger {
        Ledger {
            traced: self.traced@.to_multiset(),
            rooted: self.rooted@.to_multiset(),
            unrooted: self.unrooted@.to_multiset(),
            glued: self.glued@.to_multiset(),
            finalized: self.finalized@.to_multiset(),
        }
    }
}

/// How often `x` occurs in `items`.
fn occurrences(items: &Vec<usize>, x: usize) -> (n: usize)
    ensures
        n == items@.to_multiset().count(x),
{
    broadcast use vstd::seq_lib::group_to_multiset_ensures;

    let mut n: usize = 0;
    let mut i: usize = 0;
    assert(items@.take(0) =~= Seq::<usize>::empty());
    while i < items.len()
        invariant
            i <= items.len(),
            n <= i,
            n == items@.take(i as int).to_multiset().count(x),
        decreases items.len() - i,
    {
        proof {
            let seen = items@.take(i as int);
            assert(items@.take(i + 1) =~= seen.push(items@[i as int]));
            vstd::seq_lib::to_multiset_build(seen, items@[i as int]);
        }
        if items[i] == x {
            n += 1;
        }
        i += 1;
    }
    assert(items@.take(items.len() as int) =~= items@);
    n
}

impl Journal {
    /// A journal in which nothing is recorded.
    pub fn new() -> (journal: Journal)
        ensures
            journal@ == Ledger::empty(),
    {
        broadcast use vstd::seq_lib::group_to_multiset_ensures;

        let journal = Journal {
            traced: Vec::new(),
            rooted: Vec::new(),
            unrooted: Vec::new(),
            glued: Vec::new(),
            finalized: Vec::new(),
        };
        assert(journal@ =~= Ledger::empty());
        journal
    }

    /// Whether nothing is recorded.
    pub fn is_empty(&self) -> (empty: bool)
        ensures
            empty == (self@ == Ledger::empty()),
    {
        broadcast use vstd::seq_lib::group_to_multiset_ensures;

        let empty = self.traced.len() == 0 && self.rooted.len() == 0 && self.unrooted.len() == 0
            && self.glued.len() == 0 && self.finalized.len() == 0;
        proof {
            if empty {
                assert(self@ =~= Ledger::empty());
            } else {
                assert(self@.traced.len() + self@.rooted.len() + self@.unrooted.len()
                    + self@.glued.len() + self@.finalized.len() > 0);
            }
        }
        empty
    }

    /// Records that `pass` has reached the managed pointer `p`.
    pub fn record(&mut self, pass: Pass, p: usize)
        ensures
            final(self)@ == old(self)@.reach(pass, Multiset::singleton(p)),
    {
        broadcast use vstd::seq_lib::group_to_multiset_ensures;

        match pass {
            Pass::Trace => self.traced.push(p),
            Pass::Root => self.rooted.push(p),
            Pass::Unroot => self.unrooted.push(p),
            Pass::FinalizeGlue => self.glued.push(p),
        }
        assert(self@ =~= old(self)@.reach(pass, Multiset::singleton(p)));
    }

    /// Records that a cleanup action has run and reports under `token`.
    pub fn record_finalize(&mut self, token: usize)
        ensures
            final(self)@ == old(self)@.finalize(Multiset::singleton(token)),
    {
        broadcast use vstd::seq_lib::group_to_multiset_ensures;

        self.finalized.push(token);
        assert(self@ =~= old(self)@.finalize(Multiset::singleton(token)));
    }

    /// How often `pass` has reached the managed pointer `p`.
    pub fn count(&self, pass: Pass, p: usize) -> (n: usize)
        ensures
            n == self@.reached(pass).count(p),
    {
        match pass {
            Pass::Trace => occurrences(&self.traced, p),
            Pass::Root => occurrences(&self.rooted, p),
            Pass::Unroot => occurrences(&self.unrooted, p),
            Pass::FinalizeGlue => occurrences(&self.glued, p),
        }
    }

    /// How many pointers `pass` has reached, each counted as often as it
    /// was reached.
    pub fn total(&self, pass: Pass) -> (n: usize)
        ensures
            n == self@.reached(pass).len(),
    {
        broadcast use vstd::seq_lib::group_to_multiset_ensures;

        match pass {
            Pass::Trace => self.traced.len(),
            Pass::Root => self.rooted.len(),
            Pass::Unroot => self.unrooted.len(),
            Pass::FinalizeGlue => self.glued.len(),
        }
    }

    /// How many cleanup actions have reported.
    pub fn finalize_total(&self) -> (n: usize)
        ensures
            n == self@.finalized.len(),
    {
        broadcast use vstd::seq_lib::group_to_multiset_ensures;

        self.finalized.len()
    }

    /// The change that the recorded passes have made to the number of
    /// outside holders of `p`: once up for each rooting that reached it,
    /// once down for each unrooting.
    pub fn root_count(&self, p: usize) -> (n: i128)
        ensures
            n == self@.root_count(p),
    {
        let up: usize = occurrences(&self.rooted, p);
        let down: usize = occurrences(&self.unrooted, p);
        up as i128 - down as i128
    }

    /// How often a cleanup action has reported under `token`.
    pub fn finalize_count(&self, token: usize) -> (n: usize)
        ensures
            n == self@.finalized.count(token),
    {
        occurrences(&self.finalized, token)
    }
}

} // verus!
