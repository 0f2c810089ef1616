//! The breaker's state machine: the three states, the shared record that the
//! transitions mutate, and the transition rules as spec functions.
use vstd::prelude::*;

verus! {

/// The breaker's mode. Instants and delays are milliseconds.
#[derive(Clone, Copy, Debug, PartialEq, Eq, Structural)]
pub enum State {
    /// Normal operation: calls pass through and failures are counted.
    Closed,
    /// Tripped: calls are rejected until the clock passes `until`. `delay` is
    /// the timeout that produced `until`, kept to re-arm it after a failed probe.
    Open { until: u64, delay: u64 },
    /// Probing: calls are admitted; the outcome decides between Closed and Open.
    HalfOpen { delay: u64 },
}

/// Immutable configuration of a breaker.
#[derive(Clone, Copy, Debug, PartialEq, Eq, Structural)]
pub struct Config {
    /// Failures counted in Closed before the breaker trips.
    pub max_failures: usize,
    /// How long the breaker stays Open before admitting a probe, in milliseconds.
    pub trip_timeout: u64,
}

/// The mutable part of a breaker.
#[derive(Clone, Copy, Debug, PartialEq, Eq, Structural)]
pub struct Shared {
    pub state: State,
    pub consecutive_failures: usize,
}

/// `now + delay`, held at `u64::MAX` when the sum does not fit. No clock
/// reading exceeds `u64::MAX`, so a held deadline is never passed, just as the
/// exact sum would not be.
pub open spec fn deadline(now: u64, delay: u64) -> u64 {
    if now + delay > u64::MAX {
        u64::MAX
    } else {
        (now + delay) as u64
    }
}

pub open spec fn config_valid(c: Config) -> bool {
    c.max_failures > 0
}

/// What holds of every state that the transitions reach from `closed()`.
pub open spec fn well_formed(c: Config, s: Shared) -> bool {
    &&& s.consecutive_failures < c.max_failures
    &&& !(s.state is Closed) ==> s.consecutive_failures == 0
    &&& match s.state {
        State::Closed => true,
        State::Open { until, delay } => delay == c.trip_timeout,
        State::HalfOpen { delay } => delay == c.trip_timeout,
    }
}

/// The initial record: Closed, no failures counted.
pub open spec fn closed() -> Shared {
    Shared { state: State::Closed, consecutive_failures: 0 }
}

/// The Open record entered at `now` with timeout `delay`.
pub open spec fn opened(now: u64, delay: u64) -> Shared {
    Shared { state: State::Open { until: deadline(now, delay), delay }, consecutive_failures: 0 }
}

/// Whether a call at `now` is admitted.
pub open spec fn permits(s: Shared, now: u64) -> bool {
    match s.state {
        State::Open { until, delay } => now > until,
        _ => true,
    }
}

/// The record after asking for admission at `now`: an Open breaker whose
/// deadline has passed becomes Half-Open with the same delay.
pub open spec fn admitted(s: Shared, now: u64) -> Shared {
    match s.state {
        State::Open { until, delay } => if now > until {
            Shared { state: State::HalfOpen { delay }, consecutive_failures: s.consecutive_failures }
        } else {
            s
        },
        _ => s,
    }
}

/// The record after a failure is reported at `now`.
pub open spec fn after_error(c: Config, s: Shared, now: u64) -> Shared {
    match s.state {
        State::Closed => if s.consecutive_failures + 1 >= c.max_failures {
            opened(now, c.trip_timeout)
        } else {
            Shared { state: State::Closed, consecutive_failures: (s.consecutive_failures + 1) as usize }
        },
        State::HalfOpen { delay } => Shared {
            state: State::Open { until: deadline(now, delay), delay },
            consecutive_failures: s.consecutive_failures,
        },
        State::Open { .. } => s,
    }
}

/// The record after a success is reported.
pub open spec fn after_success(s: Shared) -> Shared {
    match s.state {
        State::HalfOpen { .. } => closed(),
        _ => s,
    }
}

/// One guarded call admitted at `start` whose operation, if run, ends at
/// `end` and succeeds exactly when `succeeded`: a rejected call leaves the
/// record as it was.
pub open spec fn step_timed(c: Config, s: Shared, start: u64, end: u64, succeeded: bool) -> Shared {
    if !permits(s, start) {
        s
    } else if succeeded {
        after_success(admitted(s, start))
    } else {
        after_error(c, admitted(s, start), end)
    }
}

/// One guarded call at `now` whose operation takes no time.
pub open spec fn step(c: Config, s: Shared, now: u64, succeeded: bool) -> Shared {
    step_timed(c, s, now, now, succeeded)
}

impl Shared {
    /// A Closed record with no failures counted.
    pub fn new() -> (r: Shared)
        ensures
            r == closed(),
    {
        Shared { state: State::Closed, consecutive_failures: 0 }
    }

    pub fn transit_to_closed(&mut self)
        ensures
            *final(self) == closed(),
    {
        self.state = State::Closed;
        self.consecutive_failures = 0;
    }

    pub fn transit_to_half_open(&mut self, delay: u64)
        ensures
            final(self).state == (State::HalfOpen { delay }),
            final(self).consecutive_failures == old(self).consecutive_failures,
    {
        self.state = State::HalfOpen { delay };
    }

    /// Enters Open at `now`, to be reconsidered once `delay` has passed.
    pub fn transit_to_open(&mut self, now: u64, delay: u64)
        ensures
            final(self).state == (State::Open { until: deadline(now, delay), delay }),
            final(self).consecutive_failures == old(self).consecutive_failures,
    {
        let until = now.saturating_add(delay);
        self.state = State::Open { until, delay };
    }

    /// Admission control at `now`; an Open record whose deadline has passed
    /// moves to Half-Open.
    pub fn is_call_permitted(&mut self, now: u64) -> (r: bool)
        ensures
            r == permits(*old(self), now),
            *final(self) == admitted(*old(self), now),
    {
        match self.state {
            State::Closed => true,
            State::HalfOpen { .. } => true,
            State::Open { until, delay } => {
                if now > until {
                    self.transit_to_half_open(delay);
                    true
                } else {
                    false
                }
            },
        }
    }

    /// Records a failed call that ended at `now`.
    pub fn on_error(&mut self, config: &Config, now: u64)
        requires
            well_formed(*config, *old(self)),
        ensures
            *final(self) == after_error(*config, *old(self), now),
    {
        match self.state {
            State::Closed => {
                self.consecutive_failures = self.consecutive_failures + 1;
                if self.consecutive_failures >= config.max_failures {
                    self.transit_to_open(now, config.trip_timeout);
                    self.consecutive_failures = 0;
                }
            },
            State::HalfOpen { delay } => {
                self.transit_to_open(now, delay);
            },
            State::Open { .. } => {},
        }
    }

    /// Records a successful call.
    pub fn on_success(&mut self)
        ensures
            *final(self) == after_success(*old(self)),
    {
        if let State::HalfOpen { .. } = self.state {
            self.transit_to_closed();
        }
    }
}

} // verus!
