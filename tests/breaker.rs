use circuit_breaker::{BreakerError, CircuitBreaker, State};
use std::cell::Cell;

const SECOND: u64 = 1000;

fn request(dice: u32) -> Result<u32, String> {
    if dice > 6 {
        Err("400: Bad request.".to_string())
    } else {
        Ok(dice)
    }
}

#[test]
fn new_breaker_is_closed() {
    let cb = CircuitBreaker::new(3, 10 * SECOND);
    assert_eq!(cb.state(), State::Closed);
    assert_eq!(cb.consecutive_failures(), 0);
    assert_eq!(cb.config().max_failures, 3);
    assert_eq!(cb.config().trip_timeout, 10 * SECOND);
}

#[test]
fn closed_admits_below_threshold() {
    let mut cb = CircuitBreaker::new(3, 10 * SECOND);
    let ran = Cell::new(0u32);
    for (t, dice) in [(0u64, 10u32), (1, 5), (2, 10), (3, 4), (4, 1)] {
        let r = cb.call_at(t, || {
            ran.set(ran.get() + 1);
            request(dice)
        });
        assert!(!matches!(r, Err(BreakerError::Rejected)));
        assert_eq!(cb.state(), State::Closed);
    }
    assert_eq!(ran.get(), 5);
    assert_eq!(cb.consecutive_failures(), 2);
}

#[test]
fn trips_at_threshold_and_rejects_within_timeout() {
    let mut cb = CircuitBreaker::new(3, 10 * SECOND);
    for t in 0..3u64 {
        assert_eq!(cb.call_at(t, || request(10)), Err(BreakerError::Inner("400: Bad request.".to_string())));
    }
    assert_eq!(cb.state(), State::Open { until: 2 + 10 * SECOND, delay: 10 * SECOND });
    assert_eq!(cb.consecutive_failures(), 0);
    let ran = Cell::new(false);
    for t in [3u64, 5 * SECOND, 2 + 10 * SECOND] {
        let r = cb.call_at(t, || {
            ran.set(true);
            request(2)
        });
        assert_eq!(r, Err(BreakerError::Rejected));
    }
    assert!(!ran.get());
    assert_eq!(cb.state(), State::Open { until: 2 + 10 * SECOND, delay: 10 * SECOND });
}

#[test]
fn success_in_closed_does_not_reset_count() {
    let mut cb = CircuitBreaker::new(3, 10 * SECOND);
    assert!(cb.call_at(0, || request(10)).is_err());
    assert!(cb.call_at(1, || request(10)).is_err());
    assert_eq!(cb.call_at(2, || request(3)), Ok(3));
    assert_eq!(cb.state(), State::Closed);
    assert_eq!(cb.consecutive_failures(), 2);
    assert!(cb.call_at(3, || request(10)).is_err());
    assert_eq!(cb.state(), State::Open { until: 3 + 10 * SECOND, delay: 10 * SECOND });
}

#[test]
fn open_moves_to_half_open_after_timeout() {
    let mut cb = CircuitBreaker::new(1, 10 * SECOND);
    assert!(cb.call_at(0, || request(10)).is_err());
    let ran = Cell::new(false);
    let r = cb.call_at(10 * SECOND + 1, || {
        ran.set(true);
        request(10)
    });
    assert!(ran.get());
    assert_eq!(r, Err(BreakerError::Inner("400: Bad request.".to_string())));
    assert_eq!(cb.state(), State::Open { until: 20 * SECOND + 1, delay: 10 * SECOND });
}

#[test]
fn probe_success_closes_and_retrips_after_full_run() {
    let mut cb = CircuitBreaker::new(2, 10 * SECOND);
    assert!(cb.call_at(0, || request(10)).is_err());
    assert!(cb.call_at(0, || request(10)).is_err());
    assert_eq!(cb.call_at(10 * SECOND + 1, || request(6)), Ok(6));
    assert_eq!(cb.state(), State::Closed);
    assert_eq!(cb.consecutive_failures(), 0);
    assert!(cb.call_at(10 * SECOND + 2, || request(10)).is_err());
    assert_eq!(cb.state(), State::Closed);
    assert_eq!(cb.consecutive_failures(), 1);
    assert!(cb.call_at(10 * SECOND + 3, || request(10)).is_err());
    assert_eq!(cb.state(), State::Open { until: 20 * SECOND + 3, delay: 10 * SECOND });
}

#[test]
fn probe_failure_reopens_with_same_delay() {
    let mut cb = CircuitBreaker::new(1, 10 * SECOND);
    assert!(cb.call_at(0, || request(10)).is_err());
    assert!(cb.call_at(10 * SECOND + 1, || request(10)).is_err());
    assert!(cb.call_at(30 * SECOND, || request(10)).is_err());
    assert!(cb.call_at(40 * SECOND + 1, || request(10)).is_err());
    assert_eq!(cb.state(), State::Open { until: 50 * SECOND + 1, delay: 10 * SECOND });
    assert_eq!(cb.call_at(50 * SECOND, || request(1)), Err(BreakerError::Rejected));
    assert_eq!(cb.call_at(50 * SECOND + 2, || request(1)), Ok(1));
}

#[test]
fn scenario_trip_probe_success_then_three_more_failures() {
    let mut cb = CircuitBreaker::new(3, 10 * SECOND);
    assert_eq!(cb.call_at(0, || request(5)), Ok(5));
    for _ in 0..3 {
        assert!(matches!(cb.call_at(0, || request(10)), Err(BreakerError::Inner(_))));
    }
    assert_eq!(cb.call_at(0, || request(2)), Err(BreakerError::Rejected));
    assert_eq!(cb.call_at(20 * SECOND, || request(5)), Ok(5));
    assert_eq!(cb.state(), State::Closed);
    for t in 1..=2u64 {
        assert!(matches!(cb.call_at(20 * SECOND + t, || request(10)), Err(BreakerError::Inner(_))));
        assert_eq!(cb.state(), State::Closed);
    }
    assert!(matches!(cb.call_at(20 * SECOND + 3, || request(10)), Err(BreakerError::Inner(_))));
    assert_eq!(cb.call_at(20 * SECOND + 4, || request(6)), Err(BreakerError::Rejected));
}

#[test]
fn scenario_probe_failure_rejects_until_timeout_elapses_again() {
    let mut cb = CircuitBreaker::new(3, 10 * SECOND);
    for _ in 0..3 {
        assert!(cb.call_at(0, || request(10)).is_err());
    }
    let probe_at = 10 * SECOND + 1;
    assert!(matches!(cb.call_at(probe_at, || request(10)), Err(BreakerError::Inner(_))));
    assert!(matches!(cb.state(), State::Open { .. }));
    assert_eq!(cb.call_at(probe_at + SECOND, || request(2)), Err(BreakerError::Rejected));
    assert_eq!(cb.call_at(probe_at + 10 * SECOND + 1, || request(2)), Ok(2));
    assert_eq!(cb.state(), State::Closed);
}

#[test]
fn zero_timeout_admits_probe_one_tick_later() {
    let mut cb = CircuitBreaker::new(1, 0);
    assert!(cb.call_at(7, || request(10)).is_err());
    assert_eq!(cb.state(), State::Open { until: 7, delay: 0 });
    assert_eq!(cb.call_at(7, || request(1)), Err(BreakerError::Rejected));
    assert_eq!(cb.call_at(8, || request(1)), Ok(1));
}

#[test]
fn deadline_is_held_at_the_largest_reading() {
    let mut cb = CircuitBreaker::new(1, u64::MAX);
    assert!(cb.call_at(5, || request(10)).is_err());
    assert_eq!(cb.state(), State::Open { until: u64::MAX, delay: u64::MAX });
    assert_eq!(cb.call_at(u64::MAX, || request(1)), Err(BreakerError::Rejected));
}

#[test]
fn inner_error_is_passed_through_unchanged() {
    let mut cb = CircuitBreaker::new(5, SECOND);
    let r: Result<(), BreakerError<(i32, &str)>> = cb.call_at(0, || Err((-4, "down")));
    assert_eq!(r, Err(BreakerError::Inner((-4, "down"))));
}

#[test]
fn call_with_clock_trips_and_rejects() {
    let mut cb = CircuitBreaker::new(2, 3600 * SECOND);
    assert_eq!(cb.call(|| request(4)), Ok(4));
    assert!(cb.call(|| request(9)).is_err());
    assert!(cb.call(|| request(9)).is_err());
    assert!(matches!(cb.state(), State::Open { delay, .. } if delay == 3600 * SECOND));
    let ran = Cell::new(false);
    let r = cb.call(|| {
        ran.set(true);
        request(1)
    });
    assert_eq!(r, Err(BreakerError::Rejected));
    assert!(!ran.get());
}
