use vstd::prelude::*;
use crate::types::MatchedPair;

verus! {

/// Some registered pair maps venue-A market `a`.
pub open spec fn has_market_a(s: Seq<MatchedPair>, a: u64) -> bool {
    exists|i: int| 0 <= i < s.len() && s[i].market_a == a
}

/// The index of the pair mapping venue-A market `a`; meaningful only
/// when `has_market_a` holds and the sequence maps each venue-A market
/// at most once.
pub open spec fn index_of_market_a(s: Seq<MatchedPair>, a: u64) -> int {
    choose|i: int| 0 <= i < s.len() && s[i].market_a == a
}

/// Registry of cross-venue market pairs judged to resolve identically.
///
/// Whether two markets match is an external policy decision; the caller
/// hands fully-formed pairs in. Each venue-A market maps to at most one
/// pair, and `pairs` hands out a stable snapshot of the registry.
pub struct MarketMatcher {
    pub pairs: Vec<MatchedPair>,
}

impl MarketMatcher {
    /// Each venue-A market is mapped at most once.
    pub open spec fn wf(self) -> bool {
        forall|i: int, j: int|
            0 <= i < j < self.pairs@.len() ==> (#[trigger] self.pairs@[i]).market_a != (
            #[trigger] self.pairs@[j]).market_a
    }

    pub fn new() -> (m: MarketMatcher)
        ensures
            m.wf(),
            m.pairs@ == Seq::<MatchedPair>::empty(),
    {
        MarketMatcher { pairs: Vec::new() }
    }

    /// Index of the pair for venue-A market `a`, if registered.
    fn find_index(&self, a: u64) -> (r: Option<usize>)
        requires
            self.wf(),
        ensures
            match r {
                Some(i) => i < self.pairs@.len() && self.pairs@[i as int].market_a == a,
                None => !has_market_a(self.pairs@, a),
            },
    {
        let mut i: usize = 0;
        while i < self.pairs.len()
            invariant
                i <= self.pairs@.len(),
                forall|j: int| 0 <= j < i ==> (#[trigger] self.pairs@[j]).market_a != a,
            decreases self.pairs@.len() - i,
        {
            if self.pairs[i].market_a == a {
                return Some(i);
            }
            i = i + 1;
        }
        None
    }

    /// The registered pair for venue-A market `a`, if any.
    pub fn lookup(&self, a: u64) -> (r: Option<MatchedPair>)
        requires
            self.wf(),
        ensures
            r is Some <==> has_market_a(self.pairs@, a),
            r matches Some(p) ==> exists|i: int|
                0 <= i < self.pairs@.len() && self.pairs@[i] == p && p.market_a == a,
    {
        match self.find_index(a) {
            Some(i) => Some(self.pairs[i]),
            None => None,
        }
    }

    /// A given pair is currently registered.
    pub fn is_registered(&self, pair: MatchedPair) -> (r: bool)
        requires
            self.wf(),
        ensures
            r == self.pairs@.contains(pair),
    {
        let mut i: usize = 0;
        while i < self.pairs.len()
            invariant
                i <= self.pairs@.len(),
                forall|j: int| 0 <= j < i ==> self.pairs@[j] != pair,
            decreases self.pairs@.len() - i,
        {
            if self.pairs[i] == pair {
                return true;
            }
            i = i + 1;
        }
        false
    }

    /// Register a pair: a fresh venue-A market is appended, a market
    /// already mapped has its pair replaced in place.
    pub fn register(&mut self, pair: MatchedPair)
        requires
            old(self).wf(),
        ensures
            final(self).wf(),
            !has_market_a(old(self).pairs@, pair.market_a) ==> final(self).pairs@ == old(
                self,
            ).pairs@.push(pair),
            has_market_a(old(self).pairs@, pair.market_a) ==> final(self).pairs@ == old(
                self,
            ).pairs@.update(index_of_market_a(old(self).pairs@, pair.market_a), pair),
    {
        match self.find_index(pair.market_a) {
            Some(i) => {
                self.pairs.set(i, pair);
                proof {
                    let k = index_of_market_a(old(self).pairs@, pair.market_a);
                    assert(0 <= k < old(self).pairs@.len() && old(self).pairs@[k].market_a
                        == pair.market_a);
                    assert(k == i as int);
                }
            },
            None => {
                self.pairs.push(pair);
            },
        }
    }

    /// Remove the pair mapping venue-A market `a`, if one is registered.
    pub fn unregister(&mut self, a: u64)
        requires
            old(self).wf(),
        ensures
            final(self).wf(),
            !has_market_a(old(self).pairs@, a) ==> *final(self) == *old(self),
            has_market_a(old(self).pairs@, a) ==> final(self).pairs@ == old(self).pairs@.remove(
                index_of_market_a(old(self).pairs@, a),
            ),
            !has_market_a(final(self).pairs@, a),
    {
        match self.find_index(a) {
            Some(i) => {
                self.pairs.remove(i);
                proof {
                    let k = index_of_market_a(old(self).pairs@, a);
                    assert(0 <= k < old(self).pairs@.len() && old(self).pairs@[k].market_a == a);
                    assert(k == i as int);
                    assert forall|j: int|
                        0 <= j < self.pairs@.len() implies (#[trigger] self.pairs@[j]).market_a
                        != a by {
                        if j < i as int {
                            assert(self.pairs@[j] == old(self).pairs@[j]);
                        } else {
                            assert(self.pairs@[j] == old(self).pairs@[j + 1]);
                        }
                    }
                }
            },
            None => {},
        }
    }

    /// A stable snapshot of the registered pairs, taken at call time.
    pub fn snapshot(&self) -> (r: Vec<MatchedPair>)
        requires
            self.wf(),
        ensures
            r@ == self.pairs@,
    {
        let mut out: Vec<MatchedPair> = Vec::new();
        let mut i: usize = 0;
        while i < self.pairs.len()
            invariant
                i <= self.pairs@.len(),
                out@ == self.pairs@.subrange(0, i as int),
            decreases self.pairs@.len() - i,
        {
            out.push(self.pairs[i]);
            i = i + 1;
        }
        proof {
            assert(out@ =~= self.pairs@);
        }
        out
    }
}

} // verus!
