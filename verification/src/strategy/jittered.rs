use crate::duration::duration_nanos;
use crate::strategy::{FusedStrategy, RetryStrategy};
use std::time::Duration;
use vstd::prelude::*;

verus! {

/// `amount` times the fraction `draw / u32::MAX`, rounded up.
pub open spec fn scaled_up(amount: nat, draw: u32) -> nat {
    ((amount * draw + 4_294_967_294) / 4_294_967_295) as nat
}

/// The length of a wait of `nanos` nanoseconds after jitter with `draw`: the
/// whole length times the fraction `draw / u32::MAX`, rounded up to the next
/// nanosecond.
pub open spec fn jittered_nanos(nanos: nat, draw: u32) -> nat {
    scaled_up(nanos, draw)
}

/// Scaling by a fraction in `[0, 1]` never enlarges, and gives zero only for
/// a zero amount or a zero draw.
pub proof fn lemma_scaled_up_bounds(amount: nat, draw: u32)
    ensures
        scaled_up(amount, draw) <= amount,
        scaled_up(amount, draw) == 0 <==> amount == 0 || draw == 0,
{
    let product = amount * draw;
    assert(0 <= product <= amount * 4_294_967_295) by (nonlinear_arith)
        requires
            product == amount * draw,
            draw <= 4_294_967_295,
    ;
    assert(product == 0 <==> amount == 0 || draw == 0) by (nonlinear_arith)
        requires
            product == amount * draw,
    ;
}

/// A jittered wait is never longer than the wait it was made from, and it is
/// zero only if that wait or the draw is zero.
pub proof fn lemma_jitter_bounds(nanos: nat, draw: u32)
    ensures
        jittered_nanos(nanos, draw) <= nanos,
        jittered_nanos(nanos, draw) == 0 <==> nanos == 0 || draw == 0,
{
    lemma_scaled_up_bounds(nanos, draw);
}

/// The wait `duration` after jitter with `draw`, which stands for the
/// fraction `draw / u32::MAX` of the interval `[0, 1]`.
pub fn jittered_delay(duration: Duration, draw: u32) -> (wait: Duration)
    ensures
        duration_nanos(wait) == jittered_nanos(duration_nanos(duration), draw),
{
    let secs = duration.as_secs();
    let subsec = duration.subsec_nanos();
    let total: u128 = (secs as u128) * 1_000_000_000 + (subsec as u128);
    proof {
        assert(total == duration_nanos(duration));
        lemma_scaled_up_bounds(total as nat, draw);
        assert(total * draw <= 0x4000_0000_0000_0000_0000_0000 * 0xffff_ffff) by (nonlinear_arith)
            requires
                total <= 0x4000_0000_0000_0000_0000_0000,
                draw <= 0xffff_ffff,
        ;
    }
    let scaled: u128 = (total * (draw as u128) + 4_294_967_294) / 4_294_967_295;
    let wait_secs = (scaled / 1_000_000_000) as u64;
    let wait_nanos = (scaled % 1_000_000_000) as u32;
    Duration::new(wait_secs, wait_nanos)
}

/// `rand::random::<u32>()`: a number that the thread's generator draws afresh
/// on every call. Every `u32` may come back, so nothing is claimed of it.
#[verifier::external_body]
fn random_draw() -> u32 {
    rand::random::<u32>()
}

/// A decorator adding full random jitter to a retry strategy.
#[derive(Debug, Clone, Copy)]
pub struct Jittered<S: RetryStrategy> {
    inner: S,
}

/// Adds jitter to every wait that `inner` yields.
pub fn jitter<S: RetryStrategy>(inner: S) -> (s: Jittered<S>)
    ensures
        s.inner() == inner,
{
    Jittered { inner }
}

impl<S: RetryStrategy> Jittered<S> {
    /// The decorated strategy, as the pulls so far have left it.
    pub closed spec fn inner(&self) -> S {
        self.inner
    }
}

impl<S: RetryStrategy> RetryStrategy for Jittered<S> {
    open spec fn pull(&self, out: Option<Duration>, next: &Self) -> bool {
        match out {
            Some(wait) => exists|raw: Duration, draw: u32|
                {
                    &&& self.inner().pull(Some(raw), &next.inner())
                    &&& duration_nanos(wait) == #[trigger] jittered_nanos(
                        duration_nanos(raw),
                        draw,
                    )
                },
            None => self.inner().pull(None, &next.inner()),
        }
    }

    fn delay(&mut self) -> (out: Option<Duration>) {
        match self.inner.delay() {
            Some(duration) => {
                let draw = random_draw();
                let wait = jittered_delay(duration, draw);
                assert(duration_nanos(wait) == jittered_nanos(duration_nanos(duration), draw));
                Some(wait)
            },
            None => None,
        }
    }
}

impl<S: FusedStrategy> FusedStrategy for Jittered<S> {
    open spec fn exhausted(&self) -> bool {
        self.inner().exhausted()
    }

    proof fn lemma_none_is_permanent(&self, out: Option<Duration>, next: &Self) {
        match out {
            Some(wait) => {
                let (raw, draw) = choose|raw: Duration, draw: u32|
                    {
                        &&& self.inner().pull(Some(raw), &next.inner())
                        &&& duration_nanos(wait) == #[trigger] jittered_nanos(
                            duration_nanos(raw),
                            draw,
                        )
                    };
                self.inner().lemma_none_is_permanent(Some(raw), &next.inner());
            },
            None => {
                self.inner().lemma_none_is_permanent(None, &next.inner());
            },
        }
    }
}

/// Every wait that a jittered strategy yields was made from a wait of the
/// decorated strategy that is at least as long.
pub proof fn lemma_jitter_never_lengthens<S: RetryStrategy>(
    strategy: Jittered<S>,
    wait: Duration,
    next: Jittered<S>,
)
    requires
        strategy.pull(Some(wait), &next),
    ensures
        exists|raw: Duration|
            {
                &&& #[trigger] strategy.inner().pull(Some(raw), &next.inner())
                &&& duration_nanos(wait) <= duration_nanos(raw)
            },
{
    let (raw, draw) = choose|raw: Duration, draw: u32|
        {
            &&& strategy.inner().pull(Some(raw), &next.inner())
            &&& duration_nanos(wait) == #[trigger] jittered_nanos(duration_nanos(raw), draw)
        };
    lemma_jitter_bounds(duration_nanos(raw), draw);
    assert(strategy.inner().pull(Some(raw), &next.inner()));
}

} // verus!
