use vstd::prelude::*;
use crate::price_cache::PriceCache;
use crate::types::{ArbType, MatchedPair, Opportunity, Quote, Venue};
use std::collections::HashMap;

verus! {

broadcast use vstd::std_specs::hash::group_hash_axioms;

/// Profit in cents of buying one YES at `yes` and one NO at `no` on a
/// pair of equivalent binary markets, after total fees of `fees`: the
/// combined book pays 100 cents at resolution whichever way it settles.
pub open spec fn spec_profit(yes: int, no: int, fees: int) -> int {
    100 - yes - no - fees
}

/// A candidate profit is worth acting on: positive and at least the
/// configured minimum.
pub open spec fn qualifies(profit: int, min_profit: int) -> bool {
    profit > 0 && profit >= min_profit
}

/// Which opportunity, if any, a pair of quote sides yields: the
/// qualifying candidate, the larger one when both qualify, with the
/// buy-YES-on-A direction preferred on a tie.
pub open spec fn spec_evaluate(
    yes_a: int,
    no_a: int,
    yes_b: int,
    no_b: int,
    fees: int,
    min_profit: int,
) -> Option<(ArbType, int)> {
    let pa = spec_profit(yes_a, no_b, fees);
    let pb = spec_profit(yes_b, no_a, fees);
    if qualifies(pa, min_profit) && (!qualifies(pb, min_profit) || pa >= pb) {
        Some((ArbType::BuyYesABuyNoB, pa))
    } else if qualifies(pb, min_profit) {
        Some((ArbType::BuyYesBBuyNoA, pb))
    } else {
        None
    }
}

/// The profit of one two-leg candidate.
pub fn profit_cents(yes_cents: u16, no_cents: u16, fee_cents: u16) -> (p: i32)
    requires
        yes_cents <= 100,
        no_cents <= 100,
        fee_cents <= 100,
    ensures
        p == spec_profit(yes_cents as int, no_cents as int, fee_cents as int),
{
    100 - (yes_cents as i32) - (no_cents as i32) - (fee_cents as i32)
}

/// Pick the qualifying arbitrage direction, if any, from the four sides
/// of a matched pair.
pub fn evaluate(
    yes_a: u16,
    no_a: u16,
    yes_b: u16,
    no_b: u16,
    fee_cents: u16,
    min_profit_cents: i32,
) -> (r: Option<(ArbType, i32)>)
    requires
        yes_a <= 100,
        no_a <= 100,
        yes_b <= 100,
        no_b <= 100,
        fee_cents <= 100,
    ensures
        r == match spec_evaluate(
            yes_a as int,
            no_a as int,
            yes_b as int,
            no_b as int,
            fee_cents as int,
            min_profit_cents as int,
        ) {
            Some((t, p)) => Some((t, p as i32)),
            None => None::<(ArbType, i32)>,
        },
{
    let pa: i32 = profit_cents(yes_a, no_b, fee_cents);
    let pb: i32 = profit_cents(yes_b, no_a, fee_cents);
    let a_ok: bool = pa > 0 && pa >= min_profit_cents;
    let b_ok: bool = pb > 0 && pb >= min_profit_cents;
    if a_ok && (!b_ok || pa >= pb) {
        Some((ArbType::BuyYesABuyNoB, pa))
    } else if b_ok {
        Some((ArbType::BuyYesBBuyNoA, pb))
    } else {
        None
    }
}

/// An opportunity with the buy-YES-on-A direction is chosen exactly when
/// its profit clears the minimum, whenever it is the dominant candidate
/// and the minimum is positive.
pub proof fn lemma_yes_a_no_b_emitted_iff(
    yes_a: int,
    no_a: int,
    yes_b: int,
    no_b: int,
    fees: int,
    min_profit: int,
)
    requires
        min_profit >= 1,
        spec_profit(yes_a, no_b, fees) >= spec_profit(yes_b, no_a, fees),
    ensures
        (spec_evaluate(yes_a, no_a, yes_b, no_b, fees, min_profit) matches Some((t, p))
            && t == ArbType::BuyYesABuyNoB) <==> spec_profit(yes_a, no_b, fees) >= min_profit,
{
}

/// The quote sides last emitted for a pair, used to suppress duplicates.
#[derive(Clone, Copy, Debug, PartialEq, Eq, Structural)]
pub struct EmitRecord {
    pub yes_a: u16,
    pub no_a: u16,
    pub yes_b: u16,
    pub no_b: u16,
    pub ts_ms: u64,
}

/// Scans matched pairs against cached quotes and emits qualifying
/// opportunities, suppressing duplicates for an unchanged quote pair
/// inside a short window.
pub struct OpportunityDetector {
    pub fee_cents: u16,
    pub min_profit_cents: i32,
    pub suppress_window_ms: u64,
    pub last_emits: HashMap<u64, EmitRecord>,
}

impl OpportunityDetector {
    pub open spec fn wf(self) -> bool {
        self.fee_cents <= 100
    }

    /// An emission for this pair with these quote sides would be a
    /// duplicate inside the suppression window at `now_ms`.
    pub open spec fn suppressed(
        self,
        pair: MatchedPair,
        qa: Quote,
        qb: Quote,
        now_ms: u64,
    ) -> bool {
        &&& self.last_emits@.contains_key(pair.market_a)
        &&& self.last_emits@[pair.market_a] == (EmitRecord {
            yes_a: qa.yes_cents,
            no_a: qa.no_cents,
            yes_b: qb.yes_cents,
            no_b: qb.no_cents,
            ts_ms: self.last_emits@[pair.market_a].ts_ms,
        })
        &&& now_ms - self.last_emits@[pair.market_a].ts_ms < self.suppress_window_ms
    }

    pub fn new(fee_cents: u16, min_profit_cents: i32, suppress_window_ms: u64) -> (d:
        OpportunityDetector)
        requires
            fee_cents <= 100,
        ensures
            d.wf(),
            d.fee_cents == fee_cents,
            d.min_profit_cents == min_profit_cents,
            d.suppress_window_ms == suppress_window_ms,
            d.last_emits@ == Map::<u64, EmitRecord>::empty(),
    {
        OpportunityDetector {
            fee_cents,
            min_profit_cents,
            suppress_window_ms,
            last_emits: HashMap::new(),
        }
    }

    /// Scan one matched pair against the cache at `now_ms`.
    ///
    /// Nothing is produced if either side's quote is absent or stale, if
    /// neither candidate direction qualifies, or if the same quote sides
    /// already produced an emission inside the suppression window. An
    /// emitted opportunity carries the chosen direction's two leg prices
    /// and its profit, and is recorded for suppression.
    pub fn scan_pair(&mut self, cache: &PriceCache, pair: MatchedPair, now_ms: u64) -> (r: Option<
        Opportunity,
    >)
        requires
            old(self).wf(),
            cache.wf(),
        ensures
            final(self).wf(),
            final(self).fee_cents == old(self).fee_cents,
            final(self).min_profit_cents == old(self).min_profit_cents,
            final(self).suppress_window_ms == old(self).suppress_window_ms,
            r is None ==> *final(self) == *old(self),
            match (cache.spec_get(Venue::A, pair.market_a, now_ms), cache.spec_get(
                Venue::B,
                pair.market_b,
                now_ms,
            )) {
                (Some(qa), Some(qb)) => {
                    match spec_evaluate(
                        qa.yes_cents as int,
                        qa.no_cents as int,
                        qb.yes_cents as int,
                        qb.no_cents as int,
                        old(self).fee_cents as int,
                        old(self).min_profit_cents as int,
                    ) {
                        Some((t, p)) => {
                            if old(self).suppressed(pair, qa, qb, now_ms) {
                                r is None
                            } else {
                                &&& r == Some(
                                    Opportunity {
                                        pair,
                                        yes_cents: if t is BuyYesABuyNoB {
                                            qa.yes_cents
                                        } else {
                                            qb.yes_cents
                                        },
                                        no_cents: if t is BuyYesABuyNoB {
                                            qb.no_cents
                                        } else {
                                            qa.no_cents
                                        },
                                        profit_cents: p as i32,
                                        arb_type: t,
                                        ts_ms: now_ms,
                                    },
                                )
                                &&& final(self).last_emits@ == old(self).last_emits@.insert(
                                    pair.market_a,
                                    EmitRecord {
                                        yes_a: qa.yes_cents,
                                        no_a: qa.no_cents,
                                        yes_b: qb.yes_cents,
                                        no_b: qb.no_cents,
                                        ts_ms: now_ms,
                                    },
                                )
                            }
                        },
                        None => r is None,
                    }
                },
                _ => r is None,
            },
    {
        let qa: Option<Quote> = cache.get(Venue::A, pair.market_a, now_ms);
        let qb: Option<Quote> = cache.get(Venue::B, pair.market_b, now_ms);
        let (qa, qb) = match (qa, qb) {
            (Some(qa), Some(qb)) => (qa, qb),
            _ => {
                return None;
            },
        };
        let picked = evaluate(
            qa.yes_cents,
            qa.no_cents,
            qb.yes_cents,
            qb.no_cents,
            self.fee_cents,
            self.min_profit_cents,
        );
        let (arb_type, profit) = match picked {
            Some(tp) => tp,
            None => {
                return None;
            },
        };
        match self.last_emits.get(&pair.market_a) {
            Some(rec) => {
                if rec.yes_a == qa.yes_cents && rec.no_a == qa.no_cents && rec.yes_b == qb.yes_cents
                    && rec.no_b == qb.no_cents && (now_ms as u128) < (rec.ts_ms as u128)
                    + (self.suppress_window_ms as u128) {
                    return None;
                }
            },
            None => {},
        }
        let record = EmitRecord {
            yes_a: qa.yes_cents,
            no_a: qa.no_cents,
            yes_b: qb.yes_cents,
            no_b: qb.no_cents,
            ts_ms: now_ms,
        };
        self.last_emits.insert(pair.market_a, record);
        let (yes_cents, no_cents) = match arb_type {
            ArbType::BuyYesABuyNoB => (qa.yes_cents, qb.no_cents),
            ArbType::BuyYesBBuyNoA => (qb.yes_cents, qa.no_cents),
        };
        Some(
            Opportunity {
                pair,
                yes_cents,
                no_cents,
                profit_cents: profit,
                arb_type,
                ts_ms: now_ms,
            },
        )
    }
}

} // verus!
