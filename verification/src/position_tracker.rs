use vstd::prelude::*;
use std::collections::HashMap;

verus! {

broadcast use vstd::std_specs::hash::group_hash_axioms;

/// Signed exposure held on one market.
///
/// `net_contracts` is positive for YES exposure and negative for NO
/// exposure; `avg_price_cents` is the volume-weighted entry price of the
/// open side, zero while flat.
#[derive(Clone, Copy, Debug, PartialEq, Eq, Structural)]
pub struct Position {
    pub market: u64,
    pub net_contracts: i64,
    pub avg_price_cents: u32,
    pub last_update_ms: u64,
}

/// Largest admissible per-market position limit; keeps every weighted
/// average computation far below the integer bounds.
pub const MAX_POSITION_LIMIT: u64 = 1_000_000_000_000;

/// Authoritative ledger of held exposure, one position per market.
///
/// The only writer of position state: every applied fill goes through
/// `apply`, which refuses any change that would push a market's absolute
/// net exposure beyond `max_position`. Hence the ledger invariant: for
/// every market, `|net_contracts| <= max_position` after any sequence of
/// applied fills.
pub struct PositionTracker {
    pub max_position: u64,
    pub positions: HashMap<u64, Position>,
}

/// Magnitude of a signed contract count.
pub open spec fn abs_i(n: int) -> int {
    if n < 0 {
        -n
    } else {
        n
    }
}

/// Volume-weighted average of an existing lot and a new fill.
pub open spec fn vwap(old_mag: int, old_avg: int, add_mag: int, price: int) -> int {
    (old_avg * old_mag + price * add_mag) / (old_mag + add_mag)
}

/// Entry price after a fill of signed size `delta` at `price` lands on a
/// position of net size `net` with average price `avg`: extending a side
/// blends the prices, reducing keeps the average, going flat clears it,
/// and crossing through zero restarts the average at the fill price.
pub open spec fn updated_avg(net: int, avg: int, delta: int, price: int) -> int {
    if delta == 0 {
        avg
    } else if net == 0 {
        price
    } else if (net > 0) == (delta > 0) {
        vwap(abs_i(net), avg, abs_i(delta), price)
    } else if abs_i(delta) < abs_i(net) {
        avg
    } else if abs_i(delta) == abs_i(net) {
        0
    } else {
        price
    }
}

/// The position a ledger map holds for a market, a flat one if absent.
pub open spec fn pos_of(m: Map<u64, Position>, market: u64) -> Position {
    if m.contains_key(market) {
        m[market]
    } else {
        Position { market, net_contracts: 0, avg_price_cents: 0, last_update_ms: 0 }
    }
}

/// A fill of signed size `delta` fits under the limit `max` on `market`.
pub open spec fn fits(m: Map<u64, Position>, max: int, market: u64, delta: int) -> bool {
    abs_i(pos_of(m, market).net_contracts + delta) <= max
}

/// The ledger map after a fill of signed size `delta` at `price` on
/// `market`: updated when the result fits under the limit, unchanged
/// otherwise.
pub open spec fn apply_map(
    m: Map<u64, Position>,
    max: int,
    market: u64,
    delta: int,
    price: int,
    now_ms: u64,
) -> Map<u64, Position> {
    if fits(m, max, market, delta) {
        m.insert(
            market,
            Position {
                market,
                net_contracts: (pos_of(m, market).net_contracts + delta) as i64,
                avg_price_cents: updated_avg(
                    pos_of(m, market).net_contracts as int,
                    pos_of(m, market).avg_price_cents as int,
                    delta,
                    price,
                ) as u32,
                last_update_ms: now_ms,
            },
        )
    } else {
        m
    }
}

impl PositionTracker {
    /// The position a market currently holds, a flat one if never touched.
    pub open spec fn spec_position(self, market: u64) -> Position {
        pos_of(self.positions@, market)
    }

    /// Remaining exposure capacity on a market.
    pub open spec fn spec_headroom(self, market: u64) -> int {
        self.max_position - abs_i(self.spec_position(market).net_contracts as int)
    }

    /// Ledger invariant: the limit is positive and bounded, every stored
    /// position sits under its own key, its exposure magnitude is within
    /// the limit, and its average price is a price in cents.
    pub open spec fn wf(self) -> bool {
        &&& 1 <= self.max_position <= MAX_POSITION_LIMIT
        &&& forall|m: u64| self.positions@.contains_key(m) ==> {
            &&& (#[trigger] self.positions@[m]).market == m
            &&& abs_i(self.positions@[m].net_contracts as int) <= self.max_position
            &&& self.positions@[m].avg_price_cents <= 99
        }
    }

    pub fn new(max_position: u64) -> (t: PositionTracker)
        requires
            1 <= max_position <= MAX_POSITION_LIMIT,
        ensures
            t.wf(),
            t.max_position == max_position,
            t.positions@ == Map::<u64, Position>::empty(),
    {
        PositionTracker { max_position, positions: HashMap::new() }
    }

    /// Remaining capacity before the limit: `max_position - |net|`.
    pub fn headroom(&self, market: u64) -> (r: u64)
        requires
            self.wf(),
        ensures
            r == self.spec_headroom(market),
    {
        let net: i64 = match self.positions.get(&market) {
            Some(p) => p.net_contracts,
            None => 0,
        };
        let mag: u64 = if net < 0 {
            (-net) as u64
        } else {
            net as u64
        };
        self.max_position - mag
    }

    /// Current position on a market, flat if never touched.
    pub fn position(&self, market: u64) -> (p: Position)
        requires
            self.wf(),
        ensures
            p == self.spec_position(market),
    {
        match self.positions.get(&market) {
            Some(p) => *p,
            None => Position { market, net_contracts: 0, avg_price_cents: 0, last_update_ms: 0 },
        }
    }

    /// Apply one venue-confirmed fill of signed size `delta` at
    /// `price_cents` to a market's position.
    ///
    /// The fill is applied exactly when the resulting exposure magnitude
    /// stays within `max_position`; otherwise the ledger is unchanged and
    /// `applied` is false. On application the net size moves by `delta`
    /// and the entry price follows `updated_avg`. The ledger invariant is
    /// preserved by every call, so no sequence of applied fills can ever
    /// push `|net_contracts|` beyond `max_position`.
    pub fn apply(&mut self, market: u64, delta: i64, price_cents: u16, now_ms: u64) -> (applied:
        bool)
        requires
            old(self).wf(),
            1 <= price_cents <= 99,
        ensures
            final(self).wf(),
            final(self).max_position == old(self).max_position,
            applied <==> fits(
                old(self).positions@,
                old(self).max_position as int,
                market,
                delta as int,
            ),
            final(self).positions@ == apply_map(
                old(self).positions@,
                old(self).max_position as int,
                market,
                delta as int,
                price_cents as int,
                now_ms,
            ),
    {
        let cur: Position = self.position(market);
        let new_net_wide: i128 = (cur.net_contracts as i128) + (delta as i128);
        let new_mag: i128 = if new_net_wide < 0 {
            -new_net_wide
        } else {
            new_net_wide
        };
        if new_mag > self.max_position as i128 {
            return false;
        }
        let new_net: i64 = new_net_wide as i64;
        let old_mag: u64 = if cur.net_contracts < 0 {
            (-cur.net_contracts) as u64
        } else {
            cur.net_contracts as u64
        };
        let add_mag: u64 = if delta < 0 {
            (-(delta as i128)) as u64
        } else {
            delta as u64
        };
        let new_avg: u32 = if delta == 0 {
            cur.avg_price_cents
        } else if cur.net_contracts == 0 {
            price_cents as u32
        } else if (cur.net_contracts > 0) == (delta > 0) {
            proof {
                assert(abs_i(cur.net_contracts as int) + abs_i(delta as int) == abs_i(
                    cur.net_contracts + delta,
                ));
            }
            blend_avg(old_mag, cur.avg_price_cents, add_mag, price_cents)
        } else if add_mag < old_mag {
            cur.avg_price_cents
        } else if add_mag == old_mag {
            0
        } else {
            price_cents as u32
        };
        let updated = Position {
            market,
            net_contracts: new_net,
            avg_price_cents: new_avg,
            last_update_ms: now_ms,
        };
        self.positions.insert(market, updated);
        true
    }
}

/// Weighted-average helper on magnitudes already known to be in range.
fn blend_avg(old_mag: u64, old_avg: u32, add_mag: u64, price: u16) -> (r: u32)
    requires
        1 <= old_mag,
        1 <= add_mag,
        old_mag + add_mag <= MAX_POSITION_LIMIT,
        old_avg <= 99,
        1 <= price <= 99,
    ensures
        r == vwap(old_mag as int, old_avg as int, add_mag as int, price as int),
        r <= 99,
{
    proof {
        assert((old_avg as int) * (old_mag as int) <= 99 * (MAX_POSITION_LIMIT as int)
            && (price as int) * (add_mag as int) <= 99 * (MAX_POSITION_LIMIT as int))
            by (nonlinear_arith)
            requires
                old_avg <= 99,
                1 <= price <= 99,
                old_mag <= MAX_POSITION_LIMIT,
                add_mag <= MAX_POSITION_LIMIT,
        ;
    }
    let numer: u128 = (old_avg as u128) * (old_mag as u128) + (price as u128) * (add_mag as u128);
    let denom: u128 = (old_mag as u128) + (add_mag as u128);
    let q: u128 = numer / denom;
    proof {
        let m = old_mag as int;
        let a = old_avg as int;
        let n = add_mag as int;
        let p = price as int;
        assert(a * m + p * n <= 99 * (m + n)) by (nonlinear_arith)
            requires
                a <= 99,
                p <= 99,
                m >= 1,
                n >= 1,
        ;
        assert((99 * (m + n)) / (m + n) == 99) by (nonlinear_arith)
            requires
                m + n >= 1,
        ;
        vstd::arithmetic::div_mod::lemma_div_is_ordered(a * m + p * n, 99 * (m + n), m + n);
        assert((a * m + p * n) / (m + n) <= 99);
        assert((a * m + p * n) / (m + n) >= 0) by (nonlinear_arith)
            requires
                a >= 0,
                p >= 0,
                m >= 1,
                n >= 1,
        ;
    }
    q as u32
}

} // verus!
