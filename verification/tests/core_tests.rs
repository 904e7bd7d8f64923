use arb_core::circuit_breaker::{BreakerState, CircuitBreaker};
use arb_core::detector::{evaluate, profit_cents, OpportunityDetector};
use arb_core::execution::{
    conclude_trade, preflight, realized_profit_cents, settle_legs, RejectReason,
};
use arb_core::matcher::MarketMatcher;
use arb_core::position_tracker::PositionTracker;
use arb_core::price_cache::PriceCache;
use arb_core::types::{ArbType, MatchedPair, Opportunity, OrderOutcome, Quote, Venue};

fn quote(venue: Venue, market: u64, yes: u16, no: u16, ts: u64) -> Quote {
    Quote { venue, market, yes_cents: yes, no_cents: no, ts_ms: ts }
}

fn pair() -> MatchedPair {
    MatchedPair { market_a: 1, market_b: 2, confidence_bp: 9500 }
}

#[test]
fn profit_formula_exact() {
    assert_eq!(profit_cents(40, 55, 2), 3);
    assert_eq!(profit_cents(50, 50, 2), -2);
    assert_eq!(profit_cents(1, 1, 0), 98);
}

#[test]
fn scenario_opportunity_emitted() {
    // yes_A=40, no_B=55, fees=2, min_profit=1: profit 3, direction A.
    let r = evaluate(40, 60, 60, 55, 2, 1);
    assert_eq!(r, Some((ArbType::BuyYesABuyNoB, 3)));
}

#[test]
fn evaluate_below_threshold_none() {
    // profit 3 but minimum 4: nothing qualifies.
    assert_eq!(evaluate(40, 60, 60, 55, 2, 4), None);
    // profit 0 is never emitted even with a zero minimum.
    assert_eq!(evaluate(43, 60, 60, 55, 2, 0), None);
}

#[test]
fn evaluate_picks_larger_direction() {
    // A-side profit: 100-40-55-2 = 3; B-side profit: 100-30-60-2 = 8.
    let r = evaluate(40, 60, 30, 55, 2, 1);
    assert_eq!(r, Some((ArbType::BuyYesBBuyNoA, 8)));
}

#[test]
fn detector_emits_through_cache() {
    let mut cache = PriceCache::new(10_000);
    cache.update(quote(Venue::A, 1, 40, 60, 1000));
    cache.update(quote(Venue::B, 2, 60, 55, 1000));
    let mut det = OpportunityDetector::new(2, 1, 5000);
    let opp = det.scan_pair(&cache, pair(), 1500).expect("opportunity expected");
    assert_eq!(opp.arb_type, ArbType::BuyYesABuyNoB);
    assert_eq!(opp.profit_cents, 3);
    assert_eq!(opp.yes_cents, 40);
    assert_eq!(opp.no_cents, 55);
    assert_eq!(opp.ts_ms, 1500);
}

#[test]
fn detector_suppresses_duplicate_within_window() {
    let mut cache = PriceCache::new(100_000);
    cache.update(quote(Venue::A, 1, 40, 60, 1000));
    cache.update(quote(Venue::B, 2, 60, 55, 1000));
    let mut det = OpportunityDetector::new(2, 1, 5000);
    assert!(det.scan_pair(&cache, pair(), 1500).is_some());
    // Unchanged quotes inside the window: suppressed.
    assert!(det.scan_pair(&cache, pair(), 2000).is_none());
    // Same quotes after the window has passed: emitted again.
    assert!(det.scan_pair(&cache, pair(), 6500).is_some());
}

#[test]
fn detector_reemits_on_changed_quotes() {
    let mut cache = PriceCache::new(100_000);
    cache.update(quote(Venue::A, 1, 40, 60, 1000));
    cache.update(quote(Venue::B, 2, 60, 55, 1000));
    let mut det = OpportunityDetector::new(2, 1, 5000);
    assert!(det.scan_pair(&cache, pair(), 1500).is_some());
    cache.update(quote(Venue::A, 1, 39, 60, 1600));
    let opp = det.scan_pair(&cache, pair(), 1700).expect("changed quotes re-emit");
    assert_eq!(opp.profit_cents, 4);
}

#[test]
fn detector_nothing_without_both_quotes() {
    let mut cache = PriceCache::new(10_000);
    cache.update(quote(Venue::A, 1, 40, 60, 1000));
    let mut det = OpportunityDetector::new(2, 1, 5000);
    assert!(det.scan_pair(&cache, pair(), 1500).is_none());
}

#[test]
fn cache_stale_quote_treated_absent() {
    let mut cache = PriceCache::new(1000);
    cache.update(quote(Venue::A, 1, 40, 60, 1000));
    assert!(cache.get(Venue::A, 1, 1900).is_some());
    assert!(cache.get(Venue::A, 1, 2001).is_none());
    assert!(cache.get(Venue::B, 1, 1500).is_none());
}

#[test]
fn cache_replaces_in_place() {
    let mut cache = PriceCache::new(10_000);
    cache.update(quote(Venue::A, 1, 40, 60, 1000));
    cache.update(quote(Venue::A, 1, 45, 55, 2000));
    let q = cache.get(Venue::A, 1, 2500).unwrap();
    assert_eq!(q.yes_cents, 45);
    assert_eq!(q.ts_ms, 2000);
}

#[test]
fn scenario_breaker_opens_on_third_failure() {
    // Threshold 3: the breaker opens exactly on the third consecutive
    // failure, and a fourth request within the cooldown is rejected.
    let mut b = CircuitBreaker::new(3, 10_000);
    b.record_failure(100);
    assert_eq!(b.state, BreakerState::Closed);
    b.record_failure(200);
    assert_eq!(b.state, BreakerState::Closed);
    b.record_failure(300);
    assert_eq!(b.state, BreakerState::Open);
    assert!(!b.try_admit(5000));
    assert_eq!(b.state, BreakerState::Open);
}

#[test]
fn breaker_success_resets_counter() {
    let mut b = CircuitBreaker::new(3, 10_000);
    b.record_failure(100);
    b.record_failure(200);
    b.record_success();
    assert_eq!(b.consecutive_failures, 0);
    b.record_failure(300);
    b.record_failure(400);
    assert_eq!(b.state, BreakerState::Closed);
}

#[test]
fn scenario_halfopen_probe_closes_breaker() {
    // After the cooldown the next request is admitted as a probe; its
    // success closes the breaker and clears the counter.
    let mut b = CircuitBreaker::new(3, 10_000);
    b.record_failure(100);
    b.record_failure(200);
    b.record_failure(300);
    assert_eq!(b.state, BreakerState::Open);
    assert!(b.try_admit(10_300));
    assert_eq!(b.state, BreakerState::HalfOpen);
    assert!(b.probe_outstanding);
    b.record_success();
    assert_eq!(b.state, BreakerState::Closed);
    assert_eq!(b.consecutive_failures, 0);
}

#[test]
fn halfopen_admits_exactly_one_probe() {
    let mut b = CircuitBreaker::new(1, 1000);
    b.record_failure(0);
    assert!(b.try_admit(1000));
    // A second concurrent request during the outstanding probe.
    assert!(!b.try_admit(1000));
    assert_eq!(b.state, BreakerState::HalfOpen);
}

#[test]
fn halfopen_probe_failure_reopens() {
    let mut b = CircuitBreaker::new(1, 1000);
    b.record_failure(0);
    assert!(b.try_admit(1000));
    b.record_failure(1500);
    assert_eq!(b.state, BreakerState::Open);
    assert_eq!(b.last_trip_ms, 1500);
    assert!(!b.try_admit(2000));
    assert!(b.try_admit(2500));
}

#[test]
fn position_limit_never_exceeded() {
    let mut t = PositionTracker::new(10);
    assert!(t.apply(7, 7, 50, 100));
    assert!(!t.apply(7, 5, 50, 200));
    assert_eq!(t.position(7).net_contracts, 7);
    assert!(!t.apply(7, -20, 50, 300));
    assert_eq!(t.position(7).net_contracts, 7);
    assert!(t.apply(7, 3, 60, 400));
    assert_eq!(t.position(7).net_contracts, 10);
    assert_eq!(t.headroom(7), 0);
}

#[test]
fn position_vwap_blends_same_side() {
    let mut t = PositionTracker::new(1000);
    assert!(t.apply(7, 10, 40, 100));
    assert_eq!(t.position(7).avg_price_cents, 40);
    assert!(t.apply(7, 10, 60, 200));
    let p = t.position(7);
    assert_eq!(p.net_contracts, 20);
    assert_eq!(p.avg_price_cents, 50);
}

#[test]
fn position_reduce_keeps_avg_cross_resets() {
    let mut t = PositionTracker::new(1000);
    assert!(t.apply(7, 10, 40, 100));
    assert!(t.apply(7, -4, 80, 200));
    assert_eq!(t.position(7).net_contracts, 6);
    assert_eq!(t.position(7).avg_price_cents, 40);
    assert!(t.apply(7, -6, 70, 300));
    assert_eq!(t.position(7).net_contracts, 0);
    assert_eq!(t.position(7).avg_price_cents, 0);
    assert!(t.apply(7, -5, 30, 400));
    assert_eq!(t.position(7).net_contracts, -5);
    assert_eq!(t.position(7).avg_price_cents, 30);
}

#[test]
fn matcher_register_lookup_unregister() {
    let mut m = MarketMatcher::new();
    m.register(pair());
    assert!(m.is_registered(pair()));
    assert_eq!(m.lookup(1).unwrap().market_b, 2);
    // Re-registering the same venue-A market replaces the mapping.
    m.register(MatchedPair { market_a: 1, market_b: 9, confidence_bp: 8000 });
    assert_eq!(m.lookup(1).unwrap().market_b, 9);
    assert_eq!(m.snapshot().len(), 1);
    m.unregister(1);
    assert!(m.lookup(1).is_none());
    assert_eq!(m.snapshot().len(), 0);
}

fn opportunity() -> Opportunity {
    Opportunity {
        pair: pair(),
        yes_cents: 40,
        no_cents: 55,
        profit_cents: 3,
        arb_type: ArbType::BuyYesABuyNoB,
        ts_ms: 1000,
    }
}

#[test]
fn preflight_checks_in_order() {
    let matcher = {
        let mut m = MarketMatcher::new();
        m.register(pair());
        m
    };
    let positions = PositionTracker::new(100);
    let mut breaker = CircuitBreaker::new(3, 10_000);

    // All good.
    assert_eq!(preflight(&opportunity(), 10, &matcher, &mut breaker, &positions, 1500, 5000), Ok(()));

    // Unregistered pair.
    let empty = MarketMatcher::new();
    assert_eq!(
        preflight(&opportunity(), 10, &empty, &mut breaker, &positions, 1500, 5000),
        Err(RejectReason::PairUnregistered)
    );

    // Stale opportunity.
    assert_eq!(
        preflight(&opportunity(), 10, &matcher, &mut breaker, &positions, 7000, 5000),
        Err(RejectReason::StaleOpportunity)
    );

    // Open breaker rejects without touching anything else.
    breaker.record_failure(100);
    breaker.record_failure(200);
    breaker.record_failure(300);
    assert_eq!(
        preflight(&opportunity(), 10, &matcher, &mut breaker, &positions, 1500, 5000),
        Err(RejectReason::BreakerOpen)
    );

    // Headroom too small on market A.
    let mut closed = CircuitBreaker::new(3, 10_000);
    let mut tight = PositionTracker::new(5);
    assert!(tight.apply(1, 5, 50, 100));
    assert_eq!(
        preflight(&opportunity(), 10, &matcher, &mut closed, &tight, 1500, 5000),
        Err(RejectReason::NoHeadroomA)
    );
}

#[test]
fn settle_both_filled_no_compensation() {
    let a = OrderOutcome::Filled { price_cents: 40, contracts: 10 };
    let b = OrderOutcome::Filled { price_cents: 55, contracts: 10 };
    assert_eq!(settle_legs(ArbType::BuyYesABuyNoB, 1, 2, a, b), (true, None));
}

#[test]
fn settle_neither_filled_no_compensation() {
    assert_eq!(
        settle_legs(ArbType::BuyYesABuyNoB, 1, 2, OrderOutcome::Failed, OrderOutcome::TimedOut),
        (false, None)
    );
}

#[test]
fn scenario_partial_fill_compensated() {
    // Leg A fills 10 at 40, leg B times out: exactly one compensating
    // flatten for leg A's 10 contracts; the trade is failed; after the
    // compensation fills, market A is flat again.
    let leg_a = OrderOutcome::Filled { price_cents: 40, contracts: 10 };
    let leg_b = OrderOutcome::TimedOut;
    let (success, comp) = settle_legs(ArbType::BuyYesABuyNoB, 1, 2, leg_a, leg_b);
    assert!(!success);
    let comp = comp.expect("one compensating action");
    assert_eq!(comp.market, 1);
    assert_eq!(comp.contracts, 10);
    assert_eq!(comp.delta, -10);

    let mut breaker = CircuitBreaker::new(3, 10_000);
    let mut positions = PositionTracker::new(100);
    let comp_fill = OrderOutcome::Filled { price_cents: 41, contracts: 10 };
    let trade = conclude_trade(
        &opportunity(),
        10,
        2,
        leg_a,
        leg_b,
        Some(comp_fill),
        &mut breaker,
        &mut positions,
        2000,
        350,
    );
    assert!(!trade.success);
    assert_eq!(trade.profit_cents, 0);
    assert_eq!(positions.position(1).net_contracts, 0);
    assert_eq!(positions.position(2).net_contracts, 0);
    assert_eq!(breaker.consecutive_failures, 1);
}

#[test]
fn conclude_success_updates_everything() {
    let leg_a = OrderOutcome::Filled { price_cents: 40, contracts: 10 };
    let leg_b = OrderOutcome::Filled { price_cents: 55, contracts: 10 };
    let mut breaker = CircuitBreaker::new(3, 10_000);
    breaker.record_failure(100);
    let mut positions = PositionTracker::new(100);
    let trade = conclude_trade(
        &opportunity(),
        10,
        2,
        leg_a,
        leg_b,
        None,
        &mut breaker,
        &mut positions,
        2000,
        120,
    );
    assert!(trade.success);
    assert_eq!(trade.profit_cents, 30);
    assert_eq!(trade.leg_a.requested_cents, 40);
    assert_eq!(trade.leg_b.requested_cents, 55);
    assert_eq!(trade.latency_ms, 120);
    assert_eq!(positions.position(1).net_contracts, 10);
    assert_eq!(positions.position(2).net_contracts, -10);
    assert_eq!(breaker.consecutive_failures, 0);
    assert_eq!(breaker.state, BreakerState::Closed);
}

#[test]
fn realized_profit_uses_common_size() {
    assert_eq!(realized_profit_cents(40, 55, 2, 10, 12), 30);
    assert_eq!(realized_profit_cents(50, 55, 2, 4, 4), -28);
}
