use std::time::Duration;
use tokio_retry::strategy::{
    jitter, jittered_delay, limit_delay, limit_retries, Deadline, ExponentialBackoff,
    FibonacciBackoff, FixedInterval, FromIterator, NoRetry, RetryStrategy, StrategyFactory,
};

#[test]
fn returns_none() {
    let mut s = NoRetry {};

    assert_eq!(s.delay(), None);
}

#[test]
fn returns_some_fixed() {
    let mut s = FixedInterval::new(Duration::from_millis(123));

    assert_eq!(s.delay(), Some(Duration::from_millis(123)));
    assert_eq!(s.delay(), Some(Duration::from_millis(123)));
    assert_eq!(s.delay(), Some(Duration::from_millis(123)));
}

#[test]
fn fixed_interval_from_millis_is_that_interval() {
    let mut s = FixedInterval::from_millis(250);

    assert_eq!(s.delay(), Some(Duration::new(0, 250_000_000)));
    assert_eq!(s.delay(), Some(Duration::new(0, 250_000_000)));
}

#[test]
fn returns_from_iterator() {
    let delays = vec![
        Duration::from_millis(10),
        Duration::from_millis(20),
        Duration::from_millis(30),
    ];
    let mut s = FromIterator::new(delays);

    assert_eq!(s.delay(), Some(Duration::from_millis(10)));
    assert_eq!(s.delay(), Some(Duration::from_millis(20)));
    assert_eq!(s.delay(), Some(Duration::from_millis(30)));
    assert_eq!(s.delay(), None);
}

#[test]
fn from_iterator_stays_exhausted() {
    let mut s = FromIterator::new(Vec::new());

    assert_eq!(s.delay(), None);
    assert_eq!(s.delay(), None);
}

#[test]
fn returns_some_exponential_base_10() {
    let mut s = ExponentialBackoff::from_millis(10);

    assert_eq!(s.delay(), Some(Duration::from_millis(10)));
    assert_eq!(s.delay(), Some(Duration::from_millis(100)));
    assert_eq!(s.delay(), Some(Duration::from_millis(1000)));
}

#[test]
fn returns_some_exponential_base_2() {
    let mut s = ExponentialBackoff::from_millis(2);

    assert_eq!(s.delay(), Some(Duration::from_millis(2)));
    assert_eq!(s.delay(), Some(Duration::from_millis(4)));
    assert_eq!(s.delay(), Some(Duration::from_millis(8)));
}

#[test]
fn exponential_backoff_returns_some_exponential_base_10() {
    let mut s = ExponentialBackoff::from_millis(10);

    assert_eq!(s.delay(), Some(Duration::from_millis(10)));
    assert_eq!(s.delay(), Some(Duration::from_millis(100)));
    assert_eq!(s.delay(), Some(Duration::from_millis(1000)));
}

#[test]
fn exponential_backoff_returns_some_exponential_base_2() {
    let mut s = ExponentialBackoff::from_millis(2);

    assert_eq!(s.delay(), Some(Duration::from_millis(2)));
    assert_eq!(s.delay(), Some(Duration::from_millis(4)));
    assert_eq!(s.delay(), Some(Duration::from_millis(8)));
}

#[test]
fn exponential_backoff_saturates_at_maximum_value() {
    let mut s = ExponentialBackoff::from_millis(u64::MAX - 1);

    assert_eq!(s.delay(), Some(Duration::from_millis(u64::MAX - 1)));
    assert_eq!(s.delay(), Some(Duration::from_millis(u64::MAX)));
    assert_eq!(s.delay(), Some(Duration::from_millis(u64::MAX)));
}

#[test]
fn can_use_factor_to_get_seconds() {
    let factor = 1000;
    let mut s = ExponentialBackoff::from_millis(2).factor(factor);

    assert_eq!(s.delay(), Some(Duration::from_secs(2)));
    assert_eq!(s.delay(), Some(Duration::from_secs(4)));
    assert_eq!(s.delay(), Some(Duration::from_secs(8)));
}

#[test]
fn exponential_backoff_factor_saturates_the_yield_only() {
    let mut s = ExponentialBackoff::from_millis(1 << 32).factor(1 << 40);

    assert_eq!(s.delay(), Some(Duration::from_millis(u64::MAX)));
    assert_eq!(s.delay(), Some(Duration::from_millis(u64::MAX)));

    let mut t = ExponentialBackoff::from_millis(1 << 20).factor(1 << 50);
    assert_eq!(t.delay(), Some(Duration::from_millis(u64::MAX)));
    // the factor scales the yield and leaves the growth alone
    let mut plain = ExponentialBackoff::from_millis(1 << 20);
    assert_eq!(plain.delay(), Some(Duration::from_millis(1 << 20)));
    assert_eq!(plain.delay(), Some(Duration::from_millis(1 << 40)));
    assert_eq!(plain.delay(), Some(Duration::from_millis(1 << 60)));
    assert_eq!(plain.delay(), Some(Duration::from_millis(u64::MAX)));
}

#[test]
fn exponential_backoff_base_zero_and_one() {
    let mut zero = ExponentialBackoff::from_millis(0);
    assert_eq!(zero.delay(), Some(Duration::from_millis(0)));
    assert_eq!(zero.delay(), Some(Duration::from_millis(0)));

    let mut one = ExponentialBackoff::from_millis(1);
    assert_eq!(one.delay(), Some(Duration::from_millis(1)));
    assert_eq!(one.delay(), Some(Duration::from_millis(1)));
}

#[test]
fn returns_the_fibonacci_series_starting_at_10() {
    let mut iter = FibonacciBackoff::from_millis(10);
    assert_eq!(iter.delay(), Some(Duration::from_millis(10)));
    assert_eq!(iter.delay(), Some(Duration::from_millis(10)));
    assert_eq!(iter.delay(), Some(Duration::from_millis(20)));
    assert_eq!(iter.delay(), Some(Duration::from_millis(30)));
    assert_eq!(iter.delay(), Some(Duration::from_millis(50)));
    assert_eq!(iter.delay(), Some(Duration::from_millis(80)));
}

#[test]
fn fibonacci_backoff_saturates_at_maximum_value() {
    let mut iter = FibonacciBackoff::from_millis(u64::MAX);
    assert_eq!(iter.delay(), Some(Duration::from_millis(u64::MAX)));
    assert_eq!(iter.delay(), Some(Duration::from_millis(u64::MAX)));
}

#[test]
fn fibonacci_backoff_saturates_in_the_middle_of_the_series() {
    let mut iter = FibonacciBackoff::from_millis(u64::MAX / 2 + 1);
    assert_eq!(iter.delay(), Some(Duration::from_millis(u64::MAX / 2 + 1)));
    assert_eq!(iter.delay(), Some(Duration::from_millis(u64::MAX / 2 + 1)));
    assert_eq!(iter.delay(), Some(Duration::from_millis(u64::MAX)));
    assert_eq!(iter.delay(), Some(Duration::from_millis(u64::MAX)));
}

#[test]
fn limits_duration() {
    let max = Duration::from_millis(700);
    let mut s = limit_delay(FixedInterval::new(Duration::from_millis(1000)), max);

    assert_eq!(s.delay(), Some(max));
    assert_eq!(s.delay(), Some(max));
    assert_eq!(s.delay(), Some(max));
}

#[test]
fn limit_delay_keeps_shorter_waits_and_none() {
    let max = Duration::from_millis(700);
    let delays = vec![
        Duration::from_millis(699),
        Duration::from_millis(700),
        Duration::from_millis(701),
        Duration::new(0, 700_000_001),
    ];
    let mut s = limit_delay(FromIterator::new(delays), max);

    assert_eq!(s.delay(), Some(Duration::from_millis(699)));
    assert_eq!(s.delay(), Some(max));
    assert_eq!(s.delay(), Some(max));
    assert_eq!(s.delay(), Some(max));
    assert_eq!(s.delay(), None);
    assert_eq!(s.delay(), None);
}

#[test]
fn limits_number_of_retries() {
    let mut s = limit_retries(FixedInterval::new(Duration::from_millis(1000)), 2);

    assert_eq!(s.delay(), Some(Duration::from_millis(1000)));
    assert_eq!(s.delay(), Some(Duration::from_millis(1000)));
    assert_eq!(s.delay(), None);
}

#[test]
fn limit_retries_stays_exhausted_and_never_revives() {
    let mut s = limit_retries(FixedInterval::from_millis(1), 0);
    assert_eq!(s.delay(), None);
    assert_eq!(s.delay(), None);

    let mut t = limit_retries(ExponentialBackoff::from_millis(3), 3);
    assert_eq!(t.delay(), Some(Duration::from_millis(3)));
    assert_eq!(t.delay(), Some(Duration::from_millis(9)));
    assert_eq!(t.delay(), Some(Duration::from_millis(27)));
    for _ in 0..10 {
        assert_eq!(t.delay(), None);
    }
}

#[test]
fn limit_retries_yields_fewer_if_the_inner_strategy_ends_first() {
    let mut s = limit_retries(FromIterator::new(vec![Duration::from_millis(5)]), 3);

    assert_eq!(s.delay(), Some(Duration::from_millis(5)));
    assert_eq!(s.delay(), None);
    assert_eq!(s.delay(), None);
    assert_eq!(s.delay(), None);
    assert_eq!(s.delay(), None);
}

#[test]
fn jittered_delay_scales_the_whole_wait_rounded_up() {
    let wait = Duration::new(2, 500_000_000);

    assert_eq!(jittered_delay(wait, u32::MAX), wait);
    assert_eq!(jittered_delay(wait, 0), Duration::new(0, 0));
    // u32::MAX is 5 * 858993459, so this draw stands for one fifth
    assert_eq!(jittered_delay(wait, 858_993_459), Duration::new(0, 500_000_000));
    assert_eq!(jittered_delay(wait, 1), Duration::new(0, 1));
    // a draw just above one half
    assert_eq!(
        jittered_delay(Duration::new(1, 500_000_000), 2_147_483_648),
        Duration::new(0, 750_000_001)
    );
    assert_eq!(
        jittered_delay(Duration::new(1, 0), 2_147_483_648),
        Duration::new(0, 500_000_001)
    );
    assert_eq!(jittered_delay(Duration::new(0, 0), 12345), Duration::new(0, 0));
    assert_eq!(
        jittered_delay(Duration::new(u64::MAX, 999_999_999), u32::MAX),
        Duration::new(u64::MAX, 999_999_999)
    );
    assert_eq!(
        jittered_delay(Duration::new(u64::MAX, 999_999_999), u32::MAX - 1),
        Duration::new(u64::MAX - 4_294_967_297, 999_999_999)
    );
}

fn jitter_never_enlarges(secs: u64, nanos: u32, draw: u32) -> bool {
    let wait = Duration::new(secs, nanos % 1_000_000_000);
    let jittered = jittered_delay(wait, draw);
    let zero = Duration::new(0, 0);
    jittered <= wait && ((jittered == zero) == (wait == zero || draw == 0))
}

#[test]
fn jittered_delay_is_bounded_for_arbitrary_input() {
    quickcheck::quickcheck(jitter_never_enlarges as fn(u64, u32, u32) -> bool)
}

#[test]
fn jitter_yields_no_more_than_the_inner_strategy() {
    let mut s = jitter(FixedInterval::from_millis(1500));
    for _ in 0..200 {
        let wait = s.delay().unwrap();
        assert!(wait <= Duration::from_millis(1500));
    }

    let mut exhausted = jitter(NoRetry {});
    assert_eq!(exhausted.delay(), None);
}

#[test]
fn deadline_gives_up_once_the_time_has_passed() {
    let mut s = FixedInterval::from_millis(10).deadline(Duration::from_millis(50));

    assert_eq!(s.delay_after(Duration::from_millis(0)), Some(Duration::from_millis(10)));
    assert_eq!(s.delay_after(Duration::from_millis(50)), Some(Duration::from_millis(10)));
    assert_eq!(s.delay_after(Duration::new(0, 50_000_001)), None);
    // permanently, whatever the clock says afterwards
    assert_eq!(s.delay_after(Duration::from_millis(1)), None);
    assert_eq!(s.delay(), None);
}

#[test]
fn deadline_hands_on_the_end_of_the_inner_strategy() {
    let mut s = FromIterator::new(vec![Duration::from_millis(7)]).deadline(Duration::from_secs(3600));

    assert_eq!(s.delay(), Some(Duration::from_millis(7)));
    assert_eq!(s.delay(), None);
    assert_eq!(s.delay(), None);
}

#[test]
fn returns_none_after_deadline_passes() {
    let runtime = tokio::runtime::Runtime::new().unwrap();
    runtime.block_on(async {
        let mut s = FixedInterval::from_millis(10).deadline(Duration::from_millis(50));
        assert_eq!(s.delay(), Some(Duration::from_millis(10)));
        tokio::time::sleep(Duration::from_millis(15)).await;
        assert_eq!(s.delay(), Some(Duration::from_millis(10)));
        tokio::time::sleep(Duration::from_millis(100)).await;
        assert_eq!(s.delay(), None);
    });
}

#[test]
fn a_copyable_strategy_is_the_factory_of_fresh_copies() {
    let factory = limit_retries(ExponentialBackoff::from_millis(2), 2);
    let mut first = factory.get_strategy();
    assert_eq!(first.delay(), Some(Duration::from_millis(2)));
    assert_eq!(first.delay(), Some(Duration::from_millis(4)));
    assert_eq!(first.delay(), None);

    let mut second = factory.get_strategy();
    assert_eq!(second.delay(), Some(Duration::from_millis(2)));
}

#[test]
fn undecorated_strategies_repeat_themselves() {
    let mut a = FibonacciBackoff::from_millis(7);
    let mut b = FibonacciBackoff::from_millis(7);
    let mut c = ExponentialBackoff::from_millis(7).factor(3);
    let mut d = ExponentialBackoff::from_millis(7).factor(3);
    for _ in 0..100 {
        assert_eq!(a.delay(), b.delay());
        assert_eq!(c.delay(), d.delay());
    }
}
