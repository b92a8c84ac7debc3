use ccx_binance::costs::TaskCosts;
use ccx_binance::error::LibError;
use ccx_binance::rate_limiter::{RateLimiter, RateLimiterBucket, RateLimiterBuilder};

const SEC: u64 = 1_000_000_000;

/// Runs one request through the dispatcher: wait pass, sleep, commit pass.
/// A sleep ends strictly after the time it was asked for, so the clock moves
/// one nanosecond past the wait.
fn dispatch(rl: &mut RateLimiter, costs: &TaskCosts, now: &mut u64) -> Result<u64, LibError> {
    let wait = rl.timeout(costs, *now)?;
    if wait > 0 {
        *now += wait + 1;
    }
    rl.set_costs(costs, *now)?;
    Ok(wait)
}

fn two_buckets(now: u64) -> RateLimiter {
    RateLimiterBuilder::default()
        .bucket(
            "interval_1__limit_1".to_string(),
            RateLimiterBucket::new(now).interval(SEC).limit(1),
        )
        .bucket(
            "interval_10__limit_2".to_string(),
            RateLimiterBucket::new(now).interval(10 * SEC).limit(2),
        )
        .start()
}

fn delayed_bucket(now: u64) -> RateLimiter {
    RateLimiterBuilder::default()
        .bucket(
            "delay_10__interval_1__limit_1".to_string(),
            RateLimiterBucket::new(now).delay(10 * SEC).interval(10 * SEC).limit(1),
        )
        .start()
}

#[test]
fn test_rate_limiter_queue() {
    let start: u64 = 5 * SEC;
    let mut now = start;
    let mut rate_limiter = two_buckets(now);
    for _i in 1..=8 {
        let task = rate_limiter
            .task("/api/v3/time")
            .cost("interval_1__limit_1".to_string(), 1)
            .cost("interval_10__limit_2".to_string(), 1)
            .send();
        let (_, costs) = task.into_parts();
        let task_res = dispatch(&mut rate_limiter, &costs, &mut now);
        println!("TASK {:?}", task_res);
        assert!(task_res.is_ok());
    }
    assert!(now - start >= 30 * SEC);
}

#[test]
fn test_rate_limiter_metadata() {
    let rate_limiter = two_buckets(0);
    for _i in 1..=8 {
        let task = rate_limiter
            .task("/api/v3/time")
            .cost("interval_1__limit_1".to_string(), 1)
            .cost("interval_10__limit_2".to_string(), 1)
            .send();
        assert_eq!(task.metadata().costs.get("interval_1__limit_1"), Some(1));
        assert_eq!(task.metadata().costs.get("interval_10__limit_2"), Some(1));
    }
}

#[test]
fn test_rate_limiter_delay() {
    let start: u64 = 3 * SEC;
    let mut now = start;
    let mut rate_limiter = delayed_bucket(now);
    for _i in 1..=2 {
        let task = rate_limiter
            .task("/api/v3/time")
            .cost("delay_10__interval_1__limit_1".to_string(), 1)
            .send();
        let (_, costs) = task.into_parts();
        let task_res = dispatch(&mut rate_limiter, &costs, &mut now);
        assert!(task_res.is_ok());
    }
    assert!(now - start >= 20 * SEC);
}

#[test]
fn test_rate_limiter_wrong_bucket() {
    let mut now: u64 = 0;
    let mut rate_limiter = delayed_bucket(now);
    let task = rate_limiter
        .task("/api/v3/time")
        .cost("interval_1__limit_1".to_string(), 1)
        .send();
    let (_, costs) = task.into_parts();
    let task_res = dispatch(&mut rate_limiter, &costs, &mut now);
    assert!(task_res.is_err())
}

fn costs_of(entries: &[(&str, u32)]) -> TaskCosts {
    let mut c = TaskCosts::new();
    for (k, w) in entries {
        c.insert(k.to_string(), *w);
    }
    c
}

#[test]
fn wait_is_largest_bucket_wait() {
    // A is full with 3 s of its window left, B is full with 7 s left.
    let mut rl = RateLimiterBuilder::new()
        .bucket("a".to_string(), RateLimiterBucket::new(0).interval(5 * SEC).limit(1))
        .bucket("b".to_string(), RateLimiterBucket::new(0).interval(9 * SEC).limit(1))
        .start();
    rl.set_costs(&costs_of(&[("a", 1), ("b", 1)]), 0).unwrap();
    let now = 2 * SEC;
    let wa = rl.get("a").unwrap().wait(1, now);
    let wb = rl.get("b").unwrap().wait(1, now);
    assert_eq!(wa, 3 * SEC);
    assert_eq!(wb, 7 * SEC);
    let w = rl.timeout(&costs_of(&[("a", 1), ("b", 1)]), now).unwrap();
    assert_eq!(w, 7 * SEC);
    assert_ne!(w, wa + wb);
}

#[test]
fn full_window_resets_after_interval() {
    let mut rl = RateLimiterBuilder::new()
        .bucket("w".to_string(), RateLimiterBucket::new(0).interval(10 * SEC).limit(4))
        .start();
    let full = costs_of(&[("w", 4)]);
    assert_eq!(rl.timeout(&full, 0).unwrap(), 0);
    rl.set_costs(&full, 0).unwrap();
    assert_eq!(rl.get("w").unwrap().amount, 4);
    // One more unit inside the window waits out the rest of it.
    assert_eq!(rl.timeout(&costs_of(&[("w", 1)]), 4 * SEC).unwrap(), 6 * SEC);
    // Past the window the full limit is admitted again at once.
    let later = 10 * SEC + 1;
    assert_eq!(rl.timeout(&full, later).unwrap(), 0);
    rl.set_costs(&full, later).unwrap();
    let b = rl.get("w").unwrap();
    assert_eq!(b.amount, 4);
    assert_eq!(b.time_instant, later);
}

#[test]
fn over_limit_in_one_request_waits_for_window() {
    let mut rl = RateLimiterBuilder::new()
        .bucket("w".to_string(), RateLimiterBucket::new(0).interval(10 * SEC).limit(4))
        .start();
    assert_eq!(rl.timeout(&costs_of(&[("w", 5)]), 3 * SEC).unwrap(), 7 * SEC);
}

#[test]
fn concurrent_requests_never_overshoot() {
    // Five requests of 3 against a limit of 12: the fifth must wait.
    let mut now: u64 = 0;
    let mut rl = RateLimiterBuilder::new()
        .bucket("w".to_string(), RateLimiterBucket::new(0).interval(SEC).limit(12))
        .start();
    let c = costs_of(&[("w", 3)]);
    let mut waits = Vec::new();
    for _ in 0..5 {
        waits.push(dispatch(&mut rl, &c, &mut now).unwrap());
        assert!(rl.get("w").unwrap().amount <= 12);
    }
    assert_eq!(waits, vec![0, 0, 0, 0, SEC]);
    assert_eq!(rl.get("w").unwrap().amount, 3);
}

#[test]
fn undefined_bucket_fails_whole_request() {
    let mut rl = RateLimiterBuilder::new()
        .bucket("ok".to_string(), RateLimiterBucket::new(0).interval(SEC).limit(10))
        .start();
    let before = rl.get("ok").unwrap();
    let c = costs_of(&[("ok", 2), ("missing", 1)]);
    match rl.timeout(&c, 5) {
        Err(LibError::UndefinedBucket(name)) => assert_eq!(name, "missing"),
        other => panic!("unexpected {:?}", other),
    }
    assert!(rl.set_costs(&c, 5).is_err());
    assert_eq!(rl.get("ok").unwrap(), before);
    assert_eq!(rl.get("ok").unwrap().amount, 0);
}

#[test]
fn metadata_is_stable_and_side_effect_free() {
    let rl = two_buckets(0);
    let task = rl
        .task(7u8)
        .cost("interval_1__limit_1".to_string(), 2)
        .cost("interval_1__limit_1".to_string(), 5)
        .send();
    for _ in 0..3 {
        let m = task.metadata();
        assert_eq!(m.costs.len(), 1);
        assert_eq!(m.costs.get("interval_1__limit_1"), Some(5));
        assert_eq!(m.costs.get("interval_10__limit_2"), None);
    }
    assert_eq!(rl.get("interval_1__limit_1").unwrap().amount, 0);
}

#[test]
fn end_to_end_one_per_window() {
    let start: u64 = 0;
    let mut now = start;
    let mut rl = RateLimiterBuilder::new()
        .bucket("B".to_string(), RateLimiterBucket::new(now).interval(SEC).limit(1))
        .start();
    let c = costs_of(&[("B", 1)]);
    for _ in 0..8 {
        assert!(dispatch(&mut rl, &c, &mut now).is_ok());
    }
    assert!(now - start >= 7 * SEC);
}

#[test]
fn delay_then_window() {
    let start: u64 = 0;
    let mut now = start;
    let mut rl = RateLimiterBuilder::new()
        .bucket(
            "d".to_string(),
            RateLimiterBucket::new(now).delay(10 * SEC).interval(10 * SEC).limit(1),
        )
        .start();
    let c = costs_of(&[("d", 1)]);
    assert_eq!(dispatch(&mut rl, &c, &mut now).unwrap(), 10 * SEC);
    assert_eq!(dispatch(&mut rl, &c, &mut now).unwrap(), 10 * SEC);
    assert!(now - start >= 20 * SEC);
}

#[test]
fn delayed_bucket_skips_capacity_check() {
    // Under its cool-down a bucket contributes only the remaining delay, and its
    // window is not rolled.
    let mut rl = RateLimiterBuilder::new()
        .bucket("d".to_string(), RateLimiterBucket::new(0).delay(4 * SEC).interval(SEC).limit(0))
        .start();
    assert_eq!(rl.timeout(&costs_of(&[("d", 100)]), SEC).unwrap(), 3 * SEC);
    assert_eq!(rl.get("d").unwrap().time_instant, 0);
}

#[test]
fn zero_limit_bucket_waits_for_any_cost() {
    let mut rl = RateLimiterBuilder::new()
        .bucket("z".to_string(), RateLimiterBucket::new(0).interval(2 * SEC))
        .start();
    assert_eq!(rl.timeout(&costs_of(&[("z", 1)]), SEC).unwrap(), SEC);
    assert_eq!(rl.timeout(&costs_of(&[("z", 0)]), SEC).unwrap(), 0);
}

#[test]
fn later_bucket_config_replaces_earlier() {
    let rl = RateLimiterBuilder::new()
        .bucket("x".to_string(), RateLimiterBucket::new(0).limit(1))
        .bucket("x".to_string(), RateLimiterBucket::new(0).limit(9))
        .start();
    assert_eq!(rl.get("x").unwrap().limit, 9);
    assert_eq!(rl.get("y"), None);
}

#[test]
fn commit_saturates_amount() {
    let mut rl = RateLimiterBuilder::new()
        .bucket("s".to_string(), RateLimiterBucket::new(0).interval(SEC).limit(u32::MAX))
        .start();
    let c = costs_of(&[("s", u32::MAX)]);
    rl.set_costs(&c, 0).unwrap();
    rl.set_costs(&c, 0).unwrap();
    assert_eq!(rl.get("s").unwrap().amount, u32::MAX);
}

#[test]
fn empty_request_is_admitted_at_once() {
    let mut rl = two_buckets(0);
    let c = TaskCosts::new();
    assert_eq!(rl.timeout(&c, 0).unwrap(), 0);
    assert!(rl.set_costs(&c, 0).is_ok());
}
