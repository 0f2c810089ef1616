//! Laws of the breaker, stated over sequences of guarded calls.
use vstd::prelude::*;
use crate::state::{
    Config, Shared, State, closed, opened, config_valid, well_formed, permits, admitted,
    step,
};

verus! {

/// The record after the calls in `calls`, in order; each call is a clock
/// reading and whether its operation, if run, succeeds.
pub open spec fn run(c: Config, s: Shared, calls: Seq<(u64, bool)>) -> Shared
    decreases calls.len(),
{
    if calls.len() == 0 {
        s
    } else {
        let last = calls.last();
        step(c, run(c, s, calls.drop_last()), last.0, last.1)
    }
}

/// How many calls in `calls` have a failing operation.
pub open spec fn failures(calls: Seq<(u64, bool)>) -> nat
    decreases calls.len(),
{
    if calls.len() == 0 {
        0
    } else {
        failures(calls.drop_last()) + if calls.last().1 {
            0nat
        } else {
            1nat
        }
    }
}

/// Whether every call in `calls` has a failing operation.
pub open spec fn all_fail(calls: Seq<(u64, bool)>) -> bool {
    forall|i: int| 0 <= i < calls.len() ==> !(#[trigger] calls[i]).1
}

/// Each transition keeps a record well formed.
pub proof fn lemma_step_well_formed(c: Config, s: Shared, now: u64, succeeded: bool)
    requires
        config_valid(c),
        well_formed(c, s),
    ensures
        well_formed(c, step(c, s, now, succeeded)),
{
}

/// While Closed, as long as fewer than `max_failures` failures have been
/// counted, every call is admitted and the breaker stays Closed, having
/// counted each failure.
pub proof fn lemma_closed_admits_below_threshold(c: Config, s: Shared, calls: Seq<(u64, bool)>)
    requires
        config_valid(c),
        well_formed(c, s),
        s.state is Closed,
        s.consecutive_failures + failures(calls) < c.max_failures,
    ensures
        forall|i: int| 0 <= i < calls.len() ==> permits(run(c, s, calls.take(i)), #[trigger] calls[i].0),
        run(c, s, calls) == (Shared {
            state: State::Closed,
            consecutive_failures: (s.consecutive_failures + failures(calls)) as usize,
        }),
    decreases calls.len(),
{
    if calls.len() > 0 {
        let prefix = calls.drop_last();
        lemma_closed_admits_below_threshold(c, s, prefix);
        assert forall|i: int| 0 <= i < calls.len() implies permits(
            run(c, s, calls.take(i)),
            #[trigger] calls[i].0,
        ) by {
            if i < prefix.len() {
                assert(calls.take(i) =~= prefix.take(i));
                assert(calls[i] == prefix[i]);
            } else {
                assert(calls.take(i) =~= prefix);
            }
        }
    } else {
        assert(run(c, s, calls) == s);
    }
}

/// A success reported while Closed changes nothing.
pub proof fn lemma_closed_success_keeps_state(c: Config, s: Shared, now: u64)
    requires
        s.state is Closed,
    ensures
        step(c, s, now, true) == s,
{
}

/// Failures that bring the count to `max_failures` while Closed trip the
/// breaker at the last one's time; until `trip_timeout` has passed from
/// then, every call is rejected and changes nothing.
pub proof fn lemma_trips_at_threshold(c: Config, s: Shared, calls: Seq<(u64, bool)>)
    requires
        config_valid(c),
        well_formed(c, s),
        s.state is Closed,
        calls.len() > 0,
        all_fail(calls),
        s.consecutive_failures + calls.len() == c.max_failures,
    ensures
        run(c, s, calls) == opened(calls.last().0, c.trip_timeout),
        forall|now: u64, succeeded: bool|
            now <= calls.last().0 + c.trip_timeout ==> {
                &&& !permits(run(c, s, calls), now)
                &&& #[trigger] step(c, run(c, s, calls), now, succeeded) == run(c, s, calls)
            },
{
    let prefix = calls.drop_last();
    lemma_all_fail_counts(prefix);
    lemma_closed_admits_below_threshold(c, s, prefix);
}

/// In a sequence of failing calls, every call is counted.
pub proof fn lemma_all_fail_counts(calls: Seq<(u64, bool)>)
    requires
        all_fail(calls),
    ensures
        failures(calls) == calls.len(),
    decreases calls.len(),
{
    if calls.len() > 0 {
        let prefix = calls.drop_last();
        assert forall|i: int| 0 <= i < prefix.len() implies !(#[trigger] prefix[i]).1 by {
            assert(prefix[i] == calls[i]);
        }
        lemma_all_fail_counts(prefix);
        assert(!calls[calls.len() - 1].1);
    }
}

/// An Open breaker entered at `entered` admits the first call after
/// `trip_timeout` has passed, and that call runs in Half-Open with the same
/// delay; before then it admits none.
pub proof fn lemma_open_times_out(c: Config, entered: u64, now: u64)
    ensures
        permits(opened(entered, c.trip_timeout), now) <==> now > entered + c.trip_timeout,
        now > entered + c.trip_timeout ==> admitted(opened(entered, c.trip_timeout), now) == (
        Shared { state: State::HalfOpen { delay: c.trip_timeout }, consecutive_failures: 0 }),
{
}

/// A probe that succeeds in Half-Open closes the breaker with no failures
/// counted; from there a fresh run of `max_failures` failures trips it again,
/// and no shorter run does.
pub proof fn lemma_probe_success_closes(
    c: Config,
    s: Shared,
    now: u64,
    calls: Seq<(u64, bool)>,
)
    requires
        config_valid(c),
        well_formed(c, s),
        s.state is HalfOpen,
        all_fail(calls),
        calls.len() == c.max_failures,
    ensures
        step(c, s, now, true) == closed(),
        forall|i: int|
            0 <= i < calls.len() ==> (#[trigger] run(c, closed(), calls.take(i))).state is Closed,
        run(c, closed(), calls) == opened(calls.last().0, c.trip_timeout),
{
    assert forall|i: int| 0 <= i < calls.len() implies (#[trigger] run(
        c,
        closed(),
        calls.take(i),
    )).state is Closed by {
        let part = calls.take(i);
        assert forall|j: int| 0 <= j < part.len() implies !(#[trigger] part[j]).1 by {
            assert(part[j] == calls[j]);
        }
        lemma_all_fail_counts(part);
        lemma_closed_admits_below_threshold(c, closed(), part);
    }
    lemma_trips_at_threshold(c, closed(), calls);
}

/// A probe that fails in Half-Open re-opens the breaker with the same delay,
/// `trip_timeout`, counted from the probe's time: calls are rejected until it
/// has passed again, and the first call after that is admitted.
pub proof fn lemma_probe_failure_reopens(c: Config, s: Shared, now: u64, later: u64)
    requires
        config_valid(c),
        well_formed(c, s),
        s.state is HalfOpen,
    ensures
        step(c, s, now, false) == opened(now, c.trip_timeout),
        permits(step(c, s, now, false), later) <==> later > now + c.trip_timeout,
{
}

} // verus!
