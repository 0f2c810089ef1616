//! The guarded call: admission control, the caller's operation, and outcome
//! recording, composed into one call.
use vstd::prelude::*;
use crate::state::{Config, Shared, State, config_valid, well_formed, permits, step_timed};
use crate::clock::millis_since;

verus! {

/// Why a guarded call did not return the operation's value.
#[derive(Debug, PartialEq, Eq)]
pub enum BreakerError<E> {
    /// The breaker declined the call; the operation did not run.
    Rejected,
    /// The operation ran and failed with this error.
    Inner(E),
}

/// What a guarded call admitted at `start` and finished at `end` owes: the
/// record moves by `step_timed` with the operation's outcome, the call is
/// rejected exactly when admission is refused, and a value or error that
/// comes back is one the operation gave.
pub open spec fn call_outcome<F: FnOnce() -> Result<T, E>, T, E>(
    c: Config,
    before: Shared,
    after: Shared,
    start: u64,
    end: u64,
    f: F,
    r: Result<T, BreakerError<E>>,
) -> bool {
    &&& after == step_timed(c, before, start, end, r is Ok)
    &&& (r matches Err(BreakerError::Rejected)) <==> !permits(before, start)
    &&& r matches Ok(v) ==> f.ensures((), Ok(v))
    &&& r matches Err(BreakerError::Inner(e)) ==> f.ensures((), Err(e))
}

/// A circuit breaker owned by one caller.
pub struct CircuitBreaker {
    config: Config,
    shared: Shared,
    origin: std::time::Instant,
}

impl View for CircuitBreaker {
    type V = Shared;

    closed spec fn view(&self) -> Shared {
        self.shared
    }
}

impl CircuitBreaker {
    pub closed spec fn spec_config(&self) -> Config {
        self.config
    }

    /// The configuration is valid and the record is one the transitions reach.
    pub open spec fn wf(&self) -> bool {
        config_valid(self.config()) && well_formed(self.config(), self@)
    }

    /// A Closed breaker that trips after `max_failures` failures and stays
    /// Open for `trip_timeout` milliseconds.
    pub fn new(max_failures: usize, trip_timeout: u64) -> (r: CircuitBreaker)
        requires
            max_failures > 0,
        ensures
            r.wf(),
            r.config() == (Config { max_failures, trip_timeout }),
            r@ == crate::state::closed(),
    {
        CircuitBreaker {
            config: Config { max_failures, trip_timeout },
            shared: Shared::new(),
            origin: std::time::Instant::now(),
        }
    }

    #[verifier::when_used_as_spec(spec_config)]
    pub fn config(&self) -> (r: Config)
        ensures
            r == self.spec_config(),
    {
        self.config
    }

    pub fn state(&self) -> (r: State)
        ensures
            r == self@.state,
    {
        self.shared.state
    }

    pub fn consecutive_failures(&self) -> (r: usize)
        ensures
            r == self@.consecutive_failures,
    {
        self.shared.consecutive_failures
    }

    /// Runs `f` under the breaker at clock reading `now` (milliseconds).
    /// A rejected call never runs `f`; an admitted one runs it once and
    /// records its outcome.
    pub fn call_at<F, T, E>(&mut self, now: u64, f: F) -> (r: Result<T, BreakerError<E>>)
        where
            F: FnOnce() -> Result<T, E>,
        requires
            old(self).wf(),
            f.requires(()),
        ensures
            final(self).wf(),
            final(self).config() == old(self).config(),
            call_outcome(old(self).config(), old(self)@, final(self)@, now, now, f, r),
    {
        if !self.shared.is_call_permitted(now) {
            return Err(BreakerError::Rejected);
        }
        match f() {
            Ok(v) => {
                self.shared.on_success();
                Ok(v)
            },
            Err(e) => {
                self.shared.on_error(&self.config, now);
                Err(BreakerError::Inner(e))
            },
        }
    }

    /// Runs `f` under the breaker at the current time, read from the
    /// breaker's clock on admission and again when a failure is recorded.
    pub fn call<F, T, E>(&mut self, f: F) -> (r: Result<T, BreakerError<E>>)
        where
            F: FnOnce() -> Result<T, E>,
        requires
            old(self).wf(),
            f.requires(()),
        ensures
            final(self).wf(),
            final(self).config() == old(self).config(),
            exists|start: u64, end: u64|
                call_outcome(old(self).config(), old(self)@, final(self)@, start, end, f, r),
    {
        let start = millis_since(&self.origin);
        let mut end = start;
        let r = if !self.shared.is_call_permitted(start) {
            Err(BreakerError::Rejected)
        } else {
            match f() {
                Ok(v) => {
                    self.shared.on_success();
                    Ok(v)
                },
                Err(e) => {
                    end = millis_since(&self.origin);
                    self.shared.on_error(&self.config, end);
                    Err(BreakerError::Inner(e))
                },
            }
        };
        assert(call_outcome(old(self).config(), old(self)@, self@, start, end, f, r));
        r
    }
}

} // verus!
