use ghost_crab::rate_limit::{Permit, RateLimiter, SECOND_MILLIS};

fn limiter(rate: u64) -> RateLimiter {
    RateLimiter::new(rate).unwrap()
}

#[test]
fn zero_rate_has_no_limiter() {
    assert_eq!(RateLimiter::new(0), None);
}

#[test]
fn interval_is_a_second_divided_by_the_rate_rounded_up() {
    assert_eq!(SECOND_MILLIS, 1_000);
    assert_eq!(limiter(1).interval, 1_000);
    assert_eq!(limiter(2).interval, 500);
    assert_eq!(limiter(3).interval, 334);
    assert_eq!(limiter(5).interval, 200);
    assert_eq!(limiter(7).interval, 143);
    assert_eq!(limiter(999).interval, 2);
    assert_eq!(limiter(1_000).interval, 1);
    assert_eq!(limiter(1_001).interval, 1);
    assert_eq!(limiter(u64::MAX).interval, 1);
    assert_eq!(
        limiter(5),
        RateLimiter { requests_per_second: 5, interval: 200, last_granted: None }
    );
}

#[test]
fn first_request_goes_out_at_once() {
    let mut five = limiter(5);
    assert_eq!(five.acquire(12_345), Permit::Granted);
    assert_eq!(five.last_granted, Some(12_345));
}

#[test]
fn request_inside_the_interval_waits_for_the_rest_of_it() {
    let mut five = limiter(5);
    assert_eq!(five.acquire(1_000), Permit::Granted);
    assert_eq!(five.acquire(1_000), Permit::Wait { millis: 200 });
    assert_eq!(five.acquire(1_050), Permit::Wait { millis: 150 });
    assert_eq!(five.acquire(1_199), Permit::Wait { millis: 1 });
    assert_eq!(five.last_granted, Some(1_000));
    assert_eq!(five.acquire(1_200), Permit::Granted);
    assert_eq!(five.last_granted, Some(1_200));
    assert_eq!(five.acquire(5_000), Permit::Granted);
}

#[test]
fn clock_reading_before_the_last_grant_waits_a_whole_interval() {
    let mut five = limiter(5);
    assert_eq!(five.acquire(1_000), Permit::Granted);
    assert_eq!(five.acquire(400), Permit::Wait { millis: 200 });
    assert_eq!(five.last_granted, Some(1_000));
}

#[test]
fn grants_at_the_end_of_the_clock() {
    let mut one = limiter(1);
    assert_eq!(one.acquire(u64::MAX - 1_000), Permit::Granted);
    assert_eq!(one.acquire(u64::MAX - 1), Permit::Wait { millis: 1 });
    assert_eq!(one.acquire(u64::MAX), Permit::Granted);
}

fn most_grants_in_any_second(rate: u64, tasks: u64, millis: u64) -> (usize, usize) {
    let mut shared = limiter(rate);
    let mut grants: Vec<u64> = Vec::new();
    for now in 0..millis {
        // Every task asks at every millisecond, as fast as it can.
        for _ in 0..tasks {
            if shared.acquire(now) == Permit::Granted {
                grants.push(now);
            }
        }
    }
    let mut most = 0usize;
    for (i, start) in grants.iter().enumerate() {
        let inside = grants[i..].iter().take_while(|time| **time - *start < 1_000).count();
        most = most.max(inside);
    }
    (most, grants.len())
}

#[test]
fn many_tasks_on_one_limiter_stay_below_the_rate() {
    let (most, all) = most_grants_in_any_second(5, 8, 10_000);
    assert_eq!(most, 5);
    assert_eq!(all, 50);
}

#[test]
fn rate_that_does_not_divide_a_second_is_not_exceeded() {
    let (most, all) = most_grants_in_any_second(3, 4, 6_000);
    assert_eq!(most, 3);
    assert_eq!(all, 18);
    let (most, _) = most_grants_in_any_second(7, 2, 5_000);
    assert_eq!(most, 7);
}

#[test]
fn rate_above_one_per_millisecond_is_held_to_one_per_millisecond() {
    let (most, all) = most_grants_in_any_second(5_000, 3, 2_000);
    assert_eq!(most, 1_000);
    assert_eq!(all, 2_000);
}
