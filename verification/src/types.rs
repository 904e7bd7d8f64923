use vstd::prelude::*;

verus! {

/// The two venues the system trades across.
#[derive(Clone, Copy, Debug, PartialEq, Eq, Structural)]
pub enum Venue {
    A,
    B,
}

/// Latest observed prices for one market on one venue.
///
/// Prices are integer cents; a binary contract trades strictly between
/// 0 and 100 cents, so a valid quote holds prices in 1..=99.
#[derive(Clone, Copy, Debug, PartialEq, Eq, Structural)]
pub struct Quote {
    pub venue: Venue,
    pub market: u64,
    pub yes_cents: u16,
    pub no_cents: u16,
    pub ts_ms: u64,
}

impl Quote {
    /// Both prices lie in the open interval of a binary contract.
    pub open spec fn wf(self) -> bool {
        &&& 1 <= self.yes_cents <= 99
        &&& 1 <= self.no_cents <= 99
    }
}

/// Two markets, one per venue, judged to resolve identically.
///
/// `confidence_bp` is the matching policy's confidence in basis points.
#[derive(Clone, Copy, Debug, PartialEq, Eq, Structural)]
pub struct MatchedPair {
    pub market_a: u64,
    pub market_b: u64,
    pub confidence_bp: u32,
}

/// Which legs an arbitrage buys: YES on one venue, NO on the other.
#[derive(Clone, Copy, Debug, PartialEq, Eq, Structural)]
pub enum ArbType {
    BuyYesABuyNoB,
    BuyYesBBuyNoA,
}

/// A priced-in arbitrage found for a matched pair; consumed once by the
/// execution engine, never stored.
#[derive(Clone, Copy, Debug, PartialEq, Eq, Structural)]
pub struct Opportunity {
    pub pair: MatchedPair,
    pub yes_cents: u16,
    pub no_cents: u16,
    pub profit_cents: i32,
    pub arb_type: ArbType,
    pub ts_ms: u64,
}

/// What a venue reported for one submitted order.
#[derive(Clone, Copy, Debug, PartialEq, Eq, Structural)]
pub enum OrderOutcome {
    Filled { price_cents: u16, contracts: u64 },
    Failed,
    TimedOut,
}

impl OrderOutcome {
    pub open spec fn is_filled(self) -> bool {
        self is Filled
    }

    /// Whether the order filled.
    pub fn is_filled_exec(&self) -> (r: bool)
        ensures
            r == self.is_filled(),
    {
        matches!(self, OrderOutcome::Filled { .. })
    }

    /// Contracts actually filled: zero unless the order filled.
    pub open spec fn filled_contracts(self) -> u64 {
        match self {
            OrderOutcome::Filled { contracts, .. } => contracts,
            _ => 0,
        }
    }
}

} // verus!
