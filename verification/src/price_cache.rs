use vstd::prelude::*;
use crate::types::{Quote, Venue};
use std::collections::HashMap;

verus! {

broadcast use vstd::std_specs::hash::group_hash_axioms;

/// One venue's stored quotes are valid and sit under their own keys.
pub open spec fn venue_map_wf(m: Map<u64, Quote>, v: Venue) -> bool {
    forall|k: u64|
        m.contains_key(k) ==> {
            &&& (#[trigger] m[k]).wf()
            &&& m[k].market == k
            &&& m[k].venue == v
        }
}

/// Most recent quote per (venue, market), replaced in place on update.
///
/// A quote older than `staleness_ms` at read time is treated as absent,
/// never returned stale.
pub struct PriceCache {
    pub staleness_ms: u64,
    pub quotes_a: HashMap<u64, Quote>,
    pub quotes_b: HashMap<u64, Quote>,
}

impl PriceCache {
    /// The stored quotes of one venue.
    pub open spec fn map_of(self, venue: Venue) -> Map<u64, Quote> {
        match venue {
            Venue::A => self.quotes_a@,
            Venue::B => self.quotes_b@,
        }
    }

    /// Every stored quote is valid and sits under its own market id on
    /// the venue whose map holds it.
    pub open spec fn wf(self) -> bool {
        &&& venue_map_wf(self.quotes_a@, Venue::A)
        &&& venue_map_wf(self.quotes_b@, Venue::B)
    }

    /// A quote observed at `ts_ms` is still usable at `now_ms`.
    pub open spec fn fresh(self, ts_ms: u64, now_ms: u64) -> bool {
        now_ms - ts_ms <= self.staleness_ms
    }

    /// What `get` returns: the stored quote if present and fresh, absent
    /// otherwise.
    pub open spec fn spec_get(self, venue: Venue, market: u64, now_ms: u64) -> Option<Quote> {
        if self.map_of(venue).contains_key(market) && self.fresh(
            self.map_of(venue)[market].ts_ms,
            now_ms,
        ) {
            Some(self.map_of(venue)[market])
        } else {
            None
        }
    }

    pub fn new(staleness_ms: u64) -> (c: PriceCache)
        ensures
            c.wf(),
            c.staleness_ms == staleness_ms,
            c.map_of(Venue::A) == Map::<u64, Quote>::empty(),
            c.map_of(Venue::B) == Map::<u64, Quote>::empty(),
    {
        PriceCache { staleness_ms, quotes_a: HashMap::new(), quotes_b: HashMap::new() }
    }

    /// Replace the stored quote for `(q.venue, q.market)` unconditionally.
    pub fn update(&mut self, q: Quote)
        requires
            old(self).wf(),
            q.wf(),
        ensures
            final(self).wf(),
            final(self).staleness_ms == old(self).staleness_ms,
            final(self).map_of(q.venue) == old(self).map_of(q.venue).insert(q.market, q),
            forall|v: Venue| v != q.venue ==> final(self).map_of(v) == old(self).map_of(v),
    {
        match q.venue {
            Venue::A => {
                self.quotes_a.insert(q.market, q);
            },
            Venue::B => {
                self.quotes_b.insert(q.market, q);
            },
        }
    }

    /// Latest quote for a market on a venue, absent if never seen or if
    /// older than the staleness threshold at `now_ms`.
    pub fn get(&self, venue: Venue, market: u64, now_ms: u64) -> (r: Option<Quote>)
        requires
            self.wf(),
        ensures
            r == self.spec_get(venue, market, now_ms),
    {
        let stored: Option<&Quote> = match venue {
            Venue::A => self.quotes_a.get(&market),
            Venue::B => self.quotes_b.get(&market),
        };
        match stored {
            Some(q) => {
                if now_ms <= q.ts_ms || now_ms - q.ts_ms <= self.staleness_ms {
                    Some(*q)
                } else {
                    None
                }
            },
            None => None,
        }
    }
}

} // verus!
