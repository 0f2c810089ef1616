//! A breaker shared by many threads. The record sits behind one lock; each of
//! admission, failure and success is its own short critical section, and the
//! caller's operation runs outside the lock.
//!
//! Other callers may act between two critical sections, so each section
//! reports, as a ghost value, the record it found under the lock and the one
//! it left there; its contract relates the two exactly.
use vstd::prelude::*;
use vstd::rwlock::{RwLock, RwLockPredicate};
use crate::state::{
    Config, Shared, closed, config_valid, well_formed, permits, admitted, after_error,
    after_success, step_timed,
};
use crate::breaker::BreakerError;
use crate::clock::millis_since;

verus! {

/// What the lock keeps true of the record it holds.
pub struct WellFormed {
    pub config: Config,
}

impl RwLockPredicate<Shared> for WellFormed {
    open spec fn inv(self, s: Shared) -> bool {
        well_formed(self.config, s)
    }
}

/// One critical section: the record found under the lock and the one left there.
#[derive(Clone, Copy, Debug, PartialEq, Eq, Structural)]
pub struct Section {
    pub before: Shared,
    pub after: Shared,
}

/// What a shared guarded call admitted at `start` and finished at `end`
/// owes. `admission` is its admission section; `outcome` the section that
/// recorded the operation's outcome, if it ran. The call is rejected exactly
/// when the record found at admission refuses it; an admitted call records
/// its operation's outcome; and where no other caller acted in between, the
/// record moves by `step_timed`, as for a breaker with one owner.
pub open spec fn shared_call_outcome<F: FnOnce() -> Result<T, E>, T, E>(
    c: Config,
    admission: Section,
    outcome: Section,
    start: u64,
    end: u64,
    f: F,
    r: Result<T, BreakerError<E>>,
) -> bool {
    &&& well_formed(c, admission.before)
    &&& admission.after == admitted(admission.before, start)
    &&& (r matches Err(BreakerError::Rejected)) <==> !permits(admission.before, start)
    &&& r matches Ok(v) ==> {
        &&& f.ensures((), Ok(v))
        &&& well_formed(c, outcome.before)
        &&& outcome.after == after_success(outcome.before)
    }
    &&& r matches Err(BreakerError::Inner(e)) ==> {
        &&& f.ensures((), Err(e))
        &&& well_formed(c, outcome.before)
        &&& outcome.after == after_error(c, outcome.before, end)
    }
    &&& !(r matches Err(BreakerError::Rejected)) && outcome.before == admission.after
        ==> outcome.after == step_timed(c, admission.before, start, end, r is Ok)
}

/// A circuit breaker that many callers may use at once through `&self`.
/// Concurrent probes in Half-Open are not limited to one: every caller that
/// finds the breaker Half-Open is admitted.
pub struct StateMachine {
    shared: RwLock<Shared, WellFormed>,
    config: Config,
    origin: std::time::Instant,
    created_with: Ghost<Shared>,
}

impl StateMachine {
    pub closed spec fn spec_config(&self) -> Config {
        self.config
    }

    /// The record the lock was created holding.
    pub closed spec fn initial_record(&self) -> Shared {
        self.created_with@
    }

    /// The configuration is valid and the lock holds only well-formed records for it.
    pub closed spec fn wf(&self) -> bool {
        &&& config_valid(self.config)
        &&& self.shared.pred() == (WellFormed { config: self.config })
    }

    /// A Closed breaker, no failures counted, that trips after
    /// `max_failures` failures and stays Open for `trip_timeout` milliseconds.
    pub fn new(max_failures: usize, trip_timeout: u64) -> (r: StateMachine)
        requires
            max_failures > 0,
        ensures
            r.wf(),
            r.config() == (Config { max_failures, trip_timeout }),
            r.initial_record() == closed(),
    {
        let config = Config { max_failures, trip_timeout };
        let record = Shared::new();
        StateMachine {
            shared: RwLock::new(record, Ghost(WellFormed { config })),
            config,
            origin: std::time::Instant::now(),
            created_with: Ghost(record),
        }
    }

    #[verifier::when_used_as_spec(spec_config)]
    pub fn config(&self) -> (r: Config)
        ensures
            r == self.spec_config(),
    {
        self.config
    }

    /// Admission control at clock reading `now`, in one critical section:
    /// permitted exactly when the record found admits a call at `now`; an
    /// Open record whose deadline has passed is left Half-Open.
    pub fn is_call_permitted(&self, now: u64) -> (res: (bool, Ghost<Section>))
        requires
            self.wf(),
        ensures
            well_formed(self.config(), res.1@.before),
            res.0 == permits(res.1@.before, now),
            res.1@.after == admitted(res.1@.before, now),
    {
        let (mut shared, handle) = self.shared.acquire_write();
        let ghost before = shared;
        let permitted = shared.is_call_permitted(now);
        let ghost after = shared;
        handle.release_write(shared);
        (permitted, Ghost(Section { before, after }))
    }

    /// Records a failed call that ended at `now`, in one critical section.
    pub fn on_error(&self, now: u64) -> (sec: Ghost<Section>)
        requires
            self.wf(),
        ensures
            well_formed(self.config(), sec@.before),
            sec@.after == after_error(self.config(), sec@.before, now),
    {
        let (mut shared, handle) = self.shared.acquire_write();
        let ghost before = shared;
        shared.on_error(&self.config, now);
        let ghost after = shared;
        handle.release_write(shared);
        Ghost(Section { before, after })
    }

    /// Records a successful call, in one critical section.
    pub fn on_success(&self) -> (sec: Ghost<Section>)
        requires
            self.wf(),
        ensures
            well_formed(self.config(), sec@.before),
            sec@.after == after_success(sec@.before),
    {
        let (mut shared, handle) = self.shared.acquire_write();
        let ghost before = shared;
        shared.on_success();
        let ghost after = shared;
        handle.release_write(shared);
        Ghost(Section { before, after })
    }

    /// Runs `f` under the breaker at clock reading `now`. A rejected call
    /// never runs `f`; an admitted one runs it once, outside the lock, and
    /// records its outcome. The operation's value or error comes back as it
    /// was, with the admission and outcome sections (for a rejected call,
    /// the admission section twice).
    pub fn call_at<F, T, E>(&self, now: u64, f: F) -> (res: (
        Result<T, BreakerError<E>>,
        Ghost<(Section, Section)>,
    ))
        where
            F: FnOnce() -> Result<T, E>,
        requires
            self.wf(),
            f.requires(()),
        ensures
            shared_call_outcome(self.config(), res.1@.0, res.1@.1, now, now, f, res.0),
    {
        let (permitted, admission) = self.is_call_permitted(now);
        if !permitted {
            return (Err(BreakerError::Rejected), Ghost((admission@, admission@)));
        }
        match f() {
            Ok(v) => {
                let outcome = self.on_success();
                (Ok(v), Ghost((admission@, outcome@)))
            },
            Err(e) => {
                let outcome = self.on_error(now);
                (Err(BreakerError::Inner(e)), Ghost((admission@, outcome@)))
            },
        }
    }

    /// Runs `f` under the breaker at the current time, read from its clock on
    /// admission and again when a failure is recorded.
    pub fn call<F, T, E>(&self, f: F) -> (res: (Result<T, BreakerError<E>>, Ghost<(Section, Section)>))
        where
            F: FnOnce() -> Result<T, E>,
        requires
            self.wf(),
            f.requires(()),
        ensures
            exists|start: u64, end: u64|
                shared_call_outcome(self.config(), res.1@.0, res.1@.1, start, end, f, res.0),
    {
        let start = millis_since(&self.origin);
        let mut end = start;
        let (permitted, admission) = self.is_call_permitted(start);
        let res = if !permitted {
            (Err(BreakerError::Rejected), Ghost((admission@, admission@)))
        } else {
            match f() {
                Ok(v) => {
                    let outcome = self.on_success();
                    (Ok(v), Ghost((admission@, outcome@)))
                },
                Err(e) => {
                    end = millis_since(&self.origin);
                    let outcome = self.on_error(end);
                    (Err(BreakerError::Inner(e)), Ghost((admission@, outcome@)))
                },
            }
        };
        assert(shared_call_outcome(self.config(), res.1@.0, res.1@.1, start, end, f, res.0));
        res
    }
}

} // verus!
