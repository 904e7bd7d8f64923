use vstd::prelude::*;

verus! {

/// Phase of the execution-gating state machine.
#[derive(Clone, Copy, Debug, PartialEq, Eq, Structural)]
pub enum BreakerState {
    Closed,
    Open,
    HalfOpen,
}

/// Risk gate between detection and order placement.
///
/// Repeated consecutive execution failures open the breaker; while open,
/// every request is rejected without touching a venue. After the cooldown
/// a single probe is let through; its outcome decides whether the breaker
/// closes again or re-opens.
pub struct CircuitBreaker {
    pub state: BreakerState,
    pub consecutive_failures: u32,
    pub threshold: u32,
    pub last_trip_ms: u64,
    pub cooldown_ms: u64,
    pub probe_outstanding: bool,
}

impl CircuitBreaker {
    /// Internal consistency: the trip threshold is positive, a closed
    /// breaker has strictly fewer consecutive failures than the threshold,
    /// and a probe can only be outstanding in the half-open phase.
    pub open spec fn wf(self) -> bool {
        &&& self.threshold >= 1
        &&& self.state is Closed ==> self.consecutive_failures < self.threshold
        &&& self.probe_outstanding ==> self.state is HalfOpen
    }

    /// The open-phase cooldown has elapsed at time `now_ms`.
    pub open spec fn cooldown_elapsed(self, now_ms: u64) -> bool {
        now_ms >= self.last_trip_ms + self.cooldown_ms
    }

    /// A request arriving at `now_ms` would be admitted.
    pub open spec fn admits(self, now_ms: u64) -> bool {
        match self.state {
            BreakerState::Closed => true,
            BreakerState::Open => self.cooldown_elapsed(now_ms),
            BreakerState::HalfOpen => !self.probe_outstanding,
        }
    }

    /// The breaker after a reported success: closed, counter cleared.
    pub open spec fn after_success(self) -> CircuitBreaker {
        CircuitBreaker {
            state: BreakerState::Closed,
            consecutive_failures: 0,
            probe_outstanding: false,
            ..self
        }
    }

    /// The breaker after a failure reported at `now_ms`: a closed breaker
    /// counts the failure and trips to `Open` exactly when the count
    /// reaches the threshold; a failed half-open probe re-opens the
    /// breaker and restarts the cooldown; an open breaker is unchanged.
    pub open spec fn after_failure(self, now_ms: u64) -> CircuitBreaker {
        match self.state {
            BreakerState::Closed => {
                if self.consecutive_failures + 1 == self.threshold {
                    CircuitBreaker {
                        state: BreakerState::Open,
                        consecutive_failures: (self.consecutive_failures + 1) as u32,
                        last_trip_ms: now_ms,
                        probe_outstanding: false,
                        ..self
                    }
                } else {
                    CircuitBreaker {
                        consecutive_failures: (self.consecutive_failures + 1) as u32,
                        ..self
                    }
                }
            },
            BreakerState::HalfOpen => CircuitBreaker {
                state: BreakerState::Open,
                last_trip_ms: now_ms,
                probe_outstanding: false,
                ..self
            },
            BreakerState::Open => self,
        }
    }

    /// The breaker after an admitted request at `now_ms`.
    pub open spec fn after_admit(self, now_ms: u64) -> CircuitBreaker {
        if self.state is Closed {
            self
        } else {
            CircuitBreaker { state: BreakerState::HalfOpen, probe_outstanding: true, ..self }
        }
    }

    pub fn new(threshold: u32, cooldown_ms: u64) -> (b: CircuitBreaker)
        requires
            threshold >= 1,
        ensures
            b.wf(),
            b.state is Closed,
            b.consecutive_failures == 0,
            b.threshold == threshold,
            b.cooldown_ms == cooldown_ms,
            !b.probe_outstanding,
    {
        CircuitBreaker {
            state: BreakerState::Closed,
            consecutive_failures: 0,
            threshold,
            last_trip_ms: 0,
            cooldown_ms,
            probe_outstanding: false,
        }
    }

    /// Decide whether an execution attempt may start at `now_ms`.
    ///
    /// Admission is exactly `admits`: always in `Closed`; in `Open` only
    /// once the cooldown has elapsed, which moves the breaker to `HalfOpen`
    /// with the probe slot taken; in `HalfOpen` only while no probe is
    /// outstanding, and the admitted request takes the probe slot. A
    /// rejected request leaves the breaker unchanged, so a second request
    /// during an outstanding probe is rejected without any state change.
    pub fn try_admit(&mut self, now_ms: u64) -> (admitted: bool)
        requires
            old(self).wf(),
        ensures
            final(self).wf(),
            admitted == old(self).admits(now_ms),
            !admitted ==> *final(self) == *old(self),
            admitted ==> *final(self) == old(self).after_admit(now_ms),
    {
        match self.state {
            BreakerState::Closed => true,
            BreakerState::Open => {
                let elapsed: bool = (now_ms as u128) >= (self.last_trip_ms as u128)
                    + (self.cooldown_ms as u128);
                if elapsed {
                    self.state = BreakerState::HalfOpen;
                    self.probe_outstanding = true;
                    true
                } else {
                    false
                }
            },
            BreakerState::HalfOpen => {
                if self.probe_outstanding {
                    false
                } else {
                    self.probe_outstanding = true;
                    true
                }
            },
        }
    }

    /// Whether a request arriving now would be admitted, without taking
    /// the probe slot.
    pub fn admits_now(&self, now_ms: u64) -> (r: bool)
        ensures
            r == self.admits(now_ms),
    {
        match self.state {
            BreakerState::Closed => true,
            BreakerState::Open => (now_ms as u128) >= (self.last_trip_ms as u128) + (
            self.cooldown_ms as u128),
            BreakerState::HalfOpen => !self.probe_outstanding,
        }
    }

    /// Report a successful execution: the breaker closes and the
    /// consecutive-failure count resets to zero.
    pub fn record_success(&mut self)
        requires
            old(self).wf(),
        ensures
            final(self).wf(),
            *final(self) == old(self).after_success(),
    {
        self.state = BreakerState::Closed;
        self.consecutive_failures = 0;
        self.probe_outstanding = false;
    }

    /// Report a failed execution at `now_ms`.
    ///
    /// In `Closed`, the consecutive-failure count grows by one and the
    /// breaker trips to `Open` exactly when the count reaches the
    /// threshold, never earlier. A failed half-open probe re-opens the
    /// breaker and restarts the cooldown from `now_ms`. A failure
    /// reported while already `Open` changes nothing.
    pub fn record_failure(&mut self, now_ms: u64)
        requires
            old(self).wf(),
        ensures
            final(self).wf(),
            *final(self) == old(self).after_failure(now_ms),
    {
        match self.state {
            BreakerState::Closed => {
                self.consecutive_failures = self.consecutive_failures + 1;
                if self.consecutive_failures == self.threshold {
                    self.state = BreakerState::Open;
                    self.last_trip_ms = now_ms;
                    self.probe_outstanding = false;
                }
            },
            BreakerState::HalfOpen => {
                self.state = BreakerState::Open;
                self.last_trip_ms = now_ms;
                self.probe_outstanding = false;
            },
            BreakerState::Open => {},
        }
    }
}

} // verus!
