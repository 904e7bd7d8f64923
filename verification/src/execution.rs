use vstd::prelude::*;
use crate::circuit_breaker::CircuitBreaker;
use crate::detector::spec_profit;
use crate::matcher::MarketMatcher;
use crate::position_tracker::{apply_map, PositionTracker, MAX_POSITION_LIMIT};
use crate::types::{ArbType, MatchedPair, Opportunity, OrderOutcome, Venue};

verus! {

/// Why an opportunity was turned away before any order was placed.
#[derive(Clone, Copy, Debug, PartialEq, Eq, Structural)]
pub enum RejectReason {
    PairUnregistered,
    StaleOpportunity,
    BreakerOpen,
    NoHeadroomA,
    NoHeadroomB,
}

/// One leg of a trade as reported back by its venue.
#[derive(Clone, Copy, Debug, PartialEq, Eq, Structural)]
pub struct LegReport {
    pub venue: Venue,
    pub market: u64,
    pub requested_cents: u16,
    pub outcome: OrderOutcome,
}

/// An offsetting order the engine asks for when exactly one leg filled:
/// flatten the filled leg on its own market.
#[derive(Clone, Copy, Debug, PartialEq, Eq, Structural)]
pub struct CompensationRequest {
    pub market: u64,
    pub contracts: u64,
    pub delta: i64,
}

/// Immutable record of one execution attempt, handed to the notifier.
#[derive(Clone, Copy, Debug, PartialEq, Eq, Structural)]
pub struct Trade {
    pub pair: MatchedPair,
    pub contracts: u64,
    pub leg_a: LegReport,
    pub leg_b: LegReport,
    pub profit_cents: i64,
    pub latency_ms: u64,
    pub success: bool,
}

/// Sign of the venue-A leg's exposure: buying YES counts positive,
/// buying NO negative.
pub open spec fn sign_a(arb: ArbType) -> int {
    if arb is BuyYesABuyNoB {
        1
    } else {
        -1
    }
}

/// Sign of the venue-B leg's exposure, always opposite to the A leg.
pub open spec fn sign_b(arb: ArbType) -> int {
    -sign_a(arb)
}

/// Multiplying by a unit sign is negation or identity.
proof fn lemma_sign_times(s: int, c: int)
    requires
        s == 1 || s == -1,
    ensures
        s * c == if s == 1 {
            c
        } else {
            -c
        },
        (-s) * c == if s == 1 {
            -c
        } else {
            c
        },
{
    assert(s * c == if s == 1 {
        c
    } else {
        -c
    }) by (nonlinear_arith)
        requires
            s == 1 || s == -1,
    ;
    assert((-s) * c == if s == 1 {
        -c
    } else {
        c
    }) by (nonlinear_arith)
        requires
            s == 1 || s == -1,
    ;
}

/// The admission verdict for one opportunity, checks in order: the pair
/// must still be registered, the opportunity fresh, the breaker willing,
/// and both markets must have headroom for the requested size.
pub open spec fn admit_verdict(
    registered: bool,
    fresh: bool,
    breaker_admits: bool,
    headroom_a: int,
    headroom_b: int,
    contracts: int,
) -> Result<(), RejectReason> {
    if !registered {
        Err(RejectReason::PairUnregistered)
    } else if !fresh {
        Err(RejectReason::StaleOpportunity)
    } else if !breaker_admits {
        Err(RejectReason::BreakerOpen)
    } else if headroom_a < contracts {
        Err(RejectReason::NoHeadroomA)
    } else if headroom_b < contracts {
        Err(RejectReason::NoHeadroomB)
    } else {
        Ok(())
    }
}

/// Pre-trade admission: the sole gate between detection and order
/// placement.
///
/// Nothing reaches a venue unless the pair is still registered, the
/// opportunity is within the staleness horizon, the circuit breaker
/// admits the request, and both markets have headroom for the size.
/// Only an admitted request touches the breaker, taking the probe slot
/// when the breaker is not closed; a rejected request leaves every
/// component unchanged.
pub fn preflight(
    opp: &Opportunity,
    contracts: u64,
    matcher: &MarketMatcher,
    breaker: &mut CircuitBreaker,
    positions: &PositionTracker,
    now_ms: u64,
    staleness_ms: u64,
) -> (r: Result<(), RejectReason>)
    requires
        matcher.wf(),
        old(breaker).wf(),
        positions.wf(),
    ensures
        final(breaker).wf(),
        r == admit_verdict(
            matcher.pairs@.contains(opp.pair),
            now_ms - opp.ts_ms <= staleness_ms,
            old(breaker).admits(now_ms),
            positions.spec_headroom(opp.pair.market_a),
            positions.spec_headroom(opp.pair.market_b),
            contracts as int,
        ),
        r is Ok ==> *final(breaker) == old(breaker).after_admit(now_ms),
        r is Err ==> *final(breaker) == *old(breaker),
{
    if !matcher.is_registered(opp.pair) {
        return Err(RejectReason::PairUnregistered);
    }
    let fresh: bool = (now_ms as u128) <= (opp.ts_ms as u128) + (staleness_ms as u128);
    if !fresh {
        return Err(RejectReason::StaleOpportunity);
    }
    if !breaker.admits_now(now_ms) {
        return Err(RejectReason::BreakerOpen);
    }
    if positions.headroom(opp.pair.market_a) < contracts {
        return Err(RejectReason::NoHeadroomA);
    }
    if positions.headroom(opp.pair.market_b) < contracts {
        return Err(RejectReason::NoHeadroomB);
    }
    let _ = breaker.try_admit(now_ms);
    Ok(())
}

/// Decide what follows from the two leg outcomes.
///
/// The trade succeeds exactly when both legs filled. Exactly one
/// compensating action is requested when exactly one leg filled: an
/// offsetting order that flattens the filled leg's own exposure. No
/// compensation is requested when both legs filled or neither did.
pub fn settle_legs(
    arb_type: ArbType,
    market_a: u64,
    market_b: u64,
    leg_a: OrderOutcome,
    leg_b: OrderOutcome,
) -> (r: (bool, Option<CompensationRequest>))
    requires
        leg_a.filled_contracts() <= MAX_POSITION_LIMIT,
        leg_b.filled_contracts() <= MAX_POSITION_LIMIT,
    ensures
        r.0 <==> leg_a.is_filled() && leg_b.is_filled(),
        r.1 is Some <==> (leg_a.is_filled() != leg_b.is_filled()),
        leg_a.is_filled() && !leg_b.is_filled() ==> r.1 == Some(
            CompensationRequest {
                market: market_a,
                contracts: leg_a.filled_contracts(),
                delta: (-sign_a(arb_type) * leg_a.filled_contracts()) as i64,
            },
        ),
        !leg_a.is_filled() && leg_b.is_filled() ==> r.1 == Some(
            CompensationRequest {
                market: market_b,
                contracts: leg_b.filled_contracts(),
                delta: (-sign_b(arb_type) * leg_b.filled_contracts()) as i64,
            },
        ),
{
    match (leg_a, leg_b) {
        (OrderOutcome::Filled { .. }, OrderOutcome::Filled { .. }) => (true, None),
        (OrderOutcome::Filled { contracts, .. }, _) => {
            let mag: i64 = contracts as i64;
            let delta: i64 = if matches!(arb_type, ArbType::BuyYesABuyNoB) {
                -mag
            } else {
                mag
            };
            proof {
                lemma_sign_times(sign_a(arb_type), contracts as int);
            }
            (false, Some(CompensationRequest { market: market_a, contracts, delta }))
        },
        (_, OrderOutcome::Filled { contracts, .. }) => {
            let mag: i64 = contracts as i64;
            let delta: i64 = if matches!(arb_type, ArbType::BuyYesABuyNoB) {
                mag
            } else {
                -mag
            };
            proof {
                lemma_sign_times(sign_b(arb_type), contracts as int);
            }
            (false, Some(CompensationRequest { market: market_b, contracts, delta }))
        },
        _ => (false, None),
    }
}

/// Profit actually locked in by two filled legs: the per-contract edge
/// at the true fill prices, on the contracts both legs have in common.
pub open spec fn spec_realized(
    price_a: int,
    price_b: int,
    fees: int,
    contracts_a: int,
    contracts_b: int,
) -> int {
    spec_profit(price_a, price_b, fees) * (if contracts_a <= contracts_b {
        contracts_a
    } else {
        contracts_b
    })
}

/// Recompute profit from actual fill prices and sizes.
pub fn realized_profit_cents(
    price_a: u16,
    price_b: u16,
    fee_cents: u16,
    contracts_a: u64,
    contracts_b: u64,
) -> (p: i64)
    requires
        price_a <= 100,
        price_b <= 100,
        fee_cents <= 100,
        contracts_a <= MAX_POSITION_LIMIT,
        contracts_b <= MAX_POSITION_LIMIT,
    ensures
        p == spec_realized(
            price_a as int,
            price_b as int,
            fee_cents as int,
            contracts_a as int,
            contracts_b as int,
        ),
{
    let edge: i64 = 100 - (price_a as i64) - (price_b as i64) - (fee_cents as i64);
    let matched: u64 = if contracts_a <= contracts_b {
        contracts_a
    } else {
        contracts_b
    };
    proof {
        assert(-300 * (MAX_POSITION_LIMIT as int) <= edge * matched <= 300 * (
        MAX_POSITION_LIMIT as int)) by (nonlinear_arith)
            requires
                -300 <= edge <= 100,
                0 <= matched <= MAX_POSITION_LIMIT,
        ;
    }
    edge * (matched as i64)
}

/// The ledger map after the venue-confirmed fills of one attempt land:
/// first the venue-A leg, then the venue-B leg, then the compensating
/// fill, if any, on the market of whichever single leg had filled.
pub open spec fn ledger_after(
    m: Map<u64, crate::position_tracker::Position>,
    max: int,
    arb_type: ArbType,
    market_a: u64,
    market_b: u64,
    leg_a: OrderOutcome,
    leg_b: OrderOutcome,
    comp: Option<OrderOutcome>,
    now_ms: u64,
) -> Map<u64, crate::position_tracker::Position> {
    let m1 = fill_map(m, max, market_a, sign_a(arb_type), leg_a, now_ms);
    let m2 = fill_map(m1, max, market_b, sign_b(arb_type), leg_b, now_ms);
    match comp {
        Some(c) => {
            if leg_a.is_filled() && !leg_b.is_filled() {
                fill_map(m2, max, market_a, -sign_a(arb_type), c, now_ms)
            } else if !leg_a.is_filled() && leg_b.is_filled() {
                fill_map(m2, max, market_b, -sign_b(arb_type), c, now_ms)
            } else {
                m2
            }
        },
        None => m2,
    }
}

/// One outcome's effect on the ledger map: a fill of `contracts` with
/// the given sign, nothing for a failed or timed-out order.
pub open spec fn fill_map(
    m: Map<u64, crate::position_tracker::Position>,
    max: int,
    market: u64,
    sign: int,
    outcome: OrderOutcome,
    now_ms: u64,
) -> Map<u64, crate::position_tracker::Position> {
    match outcome {
        OrderOutcome::Filled { price_cents, contracts } => apply_map(
            m,
            max,
            market,
            sign * contracts,
            price_cents as int,
            now_ms,
        ),
        _ => m,
    }
}

/// A filled outcome's price and size are inside the model's bounds.
pub open spec fn outcome_in_bounds(o: OrderOutcome) -> bool {
    o matches OrderOutcome::Filled { price_cents, contracts } ==> {
        &&& 1 <= price_cents <= 99
        &&& contracts <= MAX_POSITION_LIMIT
    }
}

/// Close out one execution attempt once both legs, and the compensating
/// order if one was requested, have resolved.
///
/// The trade record is built exactly from the inputs; the breaker hears
/// a success exactly when both legs filled, a failure otherwise; every
/// venue-confirmed fill, including the compensating one, lands in the
/// ledger whether or not the trade succeeded. A failed trade reports
/// zero realized profit.
pub fn conclude_trade(
    opp: &Opportunity,
    contracts: u64,
    fee_cents: u16,
    leg_a: OrderOutcome,
    leg_b: OrderOutcome,
    comp: Option<OrderOutcome>,
    breaker: &mut CircuitBreaker,
    positions: &mut PositionTracker,
    now_ms: u64,
    latency_ms: u64,
) -> (t: Trade)
    requires
        old(breaker).wf(),
        old(positions).wf(),
        fee_cents <= 100,
        outcome_in_bounds(leg_a),
        outcome_in_bounds(leg_b),
        comp matches Some(c) ==> outcome_in_bounds(c),
        comp is Some ==> leg_a.is_filled() != leg_b.is_filled(),
    ensures
        final(breaker).wf(),
        final(positions).wf(),
        t.success <==> leg_a.is_filled() && leg_b.is_filled(),
        t.success ==> *final(breaker) == old(breaker).after_success(),
        !t.success ==> *final(breaker) == old(breaker).after_failure(now_ms),
        final(positions).max_position == old(positions).max_position,
        final(positions).positions@ == ledger_after(
            old(positions).positions@,
            old(positions).max_position as int,
            opp.arb_type,
            opp.pair.market_a,
            opp.pair.market_b,
            leg_a,
            leg_b,
            comp,
            now_ms,
        ),
        t.pair == opp.pair,
        t.contracts == contracts,
        t.latency_ms == latency_ms,
        t.leg_a == (LegReport {
            venue: Venue::A,
            market: opp.pair.market_a,
            requested_cents: if opp.arb_type is BuyYesABuyNoB {
                opp.yes_cents
            } else {
                opp.no_cents
            },
            outcome: leg_a,
        }),
        t.leg_b == (LegReport {
            venue: Venue::B,
            market: opp.pair.market_b,
            requested_cents: if opp.arb_type is BuyYesABuyNoB {
                opp.no_cents
            } else {
                opp.yes_cents
            },
            outcome: leg_b,
        }),
        t.profit_cents == match (leg_a, leg_b) {
            (
                OrderOutcome::Filled { price_cents: pa, contracts: ca },
                OrderOutcome::Filled { price_cents: pb, contracts: cb },
            ) => spec_realized(pa as int, pb as int, fee_cents as int, ca as int, cb as int),
            _ => 0,
        },
{
    let success = leg_a.is_filled_exec() && leg_b.is_filled_exec();
    if success {
        breaker.record_success();
    } else {
        breaker.record_failure(now_ms);
    }
    apply_leg(positions, opp.pair.market_a, opp.arb_type, true, leg_a, now_ms);
    apply_leg(positions, opp.pair.market_b, opp.arb_type, false, leg_b, now_ms);
    match comp {
        Some(c) => {
            if leg_a.is_filled_exec() {
                apply_comp(positions, opp.pair.market_a, opp.arb_type, true, c, now_ms);
            } else {
                apply_comp(positions, opp.pair.market_b, opp.arb_type, false, c, now_ms);
            }
        },
        None => {},
    }
    let profit: i64 = match (leg_a, leg_b) {
        (
            OrderOutcome::Filled { price_cents: pa, contracts: ca },
            OrderOutcome::Filled { price_cents: pb, contracts: cb },
        ) => realized_profit_cents(pa, pb, fee_cents, ca, cb),
        _ => 0,
    };
    let (req_a, req_b) = match opp.arb_type {
        ArbType::BuyYesABuyNoB => (opp.yes_cents, opp.no_cents),
        ArbType::BuyYesBBuyNoA => (opp.no_cents, opp.yes_cents),
    };
    Trade {
        pair: opp.pair,
        contracts,
        leg_a: LegReport {
            venue: Venue::A,
            market: opp.pair.market_a,
            requested_cents: req_a,
            outcome: leg_a,
        },
        leg_b: LegReport {
            venue: Venue::B,
            market: opp.pair.market_b,
            requested_cents: req_b,
            outcome: leg_b,
        },
        profit_cents: profit,
        latency_ms,
        success,
    }
}

/// Apply one leg's fill to its market with the exposure sign the
/// arbitrage direction gives that leg.
fn apply_leg(
    positions: &mut PositionTracker,
    market: u64,
    arb_type: ArbType,
    is_leg_a: bool,
    outcome: OrderOutcome,
    now_ms: u64,
)
    requires
        old(positions).wf(),
        outcome_in_bounds(outcome),
    ensures
        final(positions).wf(),
        final(positions).max_position == old(positions).max_position,
        final(positions).positions@ == fill_map(
            old(positions).positions@,
            old(positions).max_position as int,
            market,
            if is_leg_a {
                sign_a(arb_type)
            } else {
                sign_b(arb_type)
            },
            outcome,
            now_ms,
        ),
{
    match outcome {
        OrderOutcome::Filled { price_cents, contracts } => {
            let positive: bool = if is_leg_a {
                matches!(arb_type, ArbType::BuyYesABuyNoB)
            } else {
                matches!(arb_type, ArbType::BuyYesBBuyNoA)
            };
            let delta: i64 = if positive {
                contracts as i64
            } else {
                -(contracts as i64)
            };
            proof {
                let s: int = if is_leg_a {
                    sign_a(arb_type)
                } else {
                    sign_b(arb_type)
                };
                lemma_sign_times(s, contracts as int);
                assert(delta as int == s * contracts);
            }
            positions.apply(market, delta, price_cents, now_ms);
        },
        _ => {},
    }
}

/// Apply a compensating fill: the same market as the filled leg, the
/// opposite sign.
fn apply_comp(
    positions: &mut PositionTracker,
    market: u64,
    arb_type: ArbType,
    was_leg_a: bool,
    outcome: OrderOutcome,
    now_ms: u64,
)
    requires
        old(positions).wf(),
        outcome_in_bounds(outcome),
    ensures
        final(positions).wf(),
        final(positions).max_position == old(positions).max_position,
        final(positions).positions@ == fill_map(
            old(positions).positions@,
            old(positions).max_position as int,
            market,
            if was_leg_a {
                -sign_a(arb_type)
            } else {
                -sign_b(arb_type)
            },
            outcome,
            now_ms,
        ),
{
    match outcome {
        OrderOutcome::Filled { price_cents, contracts } => {
            let positive: bool = if was_leg_a {
                !matches!(arb_type, ArbType::BuyYesABuyNoB)
            } else {
                !matches!(arb_type, ArbType::BuyYesBBuyNoA)
            };
            let delta: i64 = if positive {
                contracts as i64
            } else {
                -(contracts as i64)
            };
            proof {
                let s: int = if was_leg_a {
                    -sign_a(arb_type)
                } else {
                    -sign_b(arb_type)
                };
                lemma_sign_times(s, contracts as int);
                assert(delta as int == s * contracts);
            }
            positions.apply(market, delta, price_cents, now_ms);
        },
        _ => {},
    }
}

} // verus!
