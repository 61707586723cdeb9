use crate::strategy::{is_run, FusedStrategy, RetryStrategy};
use std::time::Duration;
use vstd::prelude::*;

verus! {

/// A decorator limiting the number of retries.
#[derive(Debug, Clone, Copy)]
pub struct LimitedRetries<S: RetryStrategy> {
    inner: S,
    current: usize,
    maximum: usize,
}

/// Limits `inner` to its first `maximum` pulls.
pub fn limit_retries<S: RetryStrategy>(inner: S, maximum: usize) -> (s: LimitedRetries<S>)
    ensures
        s.inner() == inner,
        s.used() == 0,
        s.limit() == maximum,
{
    LimitedRetries { inner, current: 0, maximum }
}

impl<S: RetryStrategy> LimitedRetries<S> {
    /// The decorated strategy, as the pulls so far have left it.
    pub closed spec fn inner(&self) -> S {
        self.inner
    }

    /// How many pulls have been handed on to the decorated strategy.
    pub closed spec fn used(&self) -> nat {
        self.current as nat
    }

    /// How many pulls are handed on to the decorated strategy at most.
    pub closed spec fn limit(&self) -> nat {
        self.maximum as nat
    }
}

impl<S: RetryStrategy> RetryStrategy for LimitedRetries<S> {
    open spec fn pull(&self, out: Option<Duration>, next: &Self) -> bool {
        &&& next.limit() == self.limit()
        &&& if self.used() < self.limit() {
            &&& next.used() == self.used() + 1
            &&& self.inner().pull(out, &next.inner())
        } else {
            &&& out is None
            &&& next.used() == self.used()
            &&& next.inner() == self.inner()
        }
    }

    fn delay(&mut self) -> (out: Option<Duration>) {
        if self.current < self.maximum {
            self.current += 1;
            self.inner.delay()
        } else {
            None
        }
    }
}

impl<S: FusedStrategy> FusedStrategy for LimitedRetries<S> {
    open spec fn exhausted(&self) -> bool {
        self.used() >= self.limit() || self.inner().exhausted()
    }

    proof fn lemma_none_is_permanent(&self, out: Option<Duration>, next: &Self) {
        if self.used() < self.limit() {
            self.inner().lemma_none_is_permanent(out, &next.inner());
        }
    }
}

/// The decorated strategies of the first `n + 1` states of a run.
pub open spec fn inner_states<S: RetryStrategy>(states: Seq<LimitedRetries<S>>, n: int) -> Seq<S> {
    Seq::new((n + 1) as nat, |j: int| states[j].inner())
}

/// A strategy limited to `n` retries hands on its first `n` pulls to the
/// decorated strategy, whose yields it returns unchanged, and yields `None`
/// on every later pull. So it yields `Some` exactly `n` times, or fewer if the
/// decorated strategy gives up first, and then `None` forever.
pub proof fn lemma_limited_retries<S: RetryStrategy>(
    states: Seq<LimitedRetries<S>>,
    outs: Seq<Option<Duration>>,
)
    requires
        is_run(states, outs),
        states[0].used() == 0,
    ensures
        forall|i: int| states[0].limit() <= i < outs.len() ==> outs[i] is None,
        forall|k: int|
            0 <= k <= outs.len() && k <= states[0].limit() ==> is_run(
                #[trigger] inner_states(states, k),
                outs.take(k),
            ),
{
    let limit = states[0].limit();
    assert forall|i: int| 0 <= i <= outs.len() implies (#[trigger] states[i]).limit() == limit
        && states[i].used() == (if i <= limit {
        i as nat
    } else {
        limit
    }) by {
        lemma_used(states, outs, i);
    }
    assert forall|i: int| limit <= i < outs.len() implies outs[i] is None by {
        assert(states[i].pull(outs[i], &states[i + 1]));
    }
    assert forall|k: int| 0 <= k <= outs.len() && k <= limit implies is_run(
        #[trigger] inner_states(states, k),
        outs.take(k),
    ) by {
        let inners = inner_states(states, k);
        let firsts = outs.take(k);
        assert forall|i: int| 0 <= i < firsts.len() implies (#[trigger] inners[i]).pull(
            firsts[i],
            &inners[i + 1],
        ) by {
            assert(states[i].pull(outs[i], &states[i + 1]));
        }
    }
}

/// After `i` pulls of a run that began unused, `min(i, limit)` pulls have
/// been handed on.
proof fn lemma_used<S: RetryStrategy>(
    states: Seq<LimitedRetries<S>>,
    outs: Seq<Option<Duration>>,
    i: int,
)
    requires
        is_run(states, outs),
        states[0].used() == 0,
        0 <= i <= outs.len(),
    ensures
        states[i].limit() == states[0].limit(),
        states[i].used() == (if i <= states[0].limit() {
            i as nat
        } else {
            states[0].limit()
        }),
    decreases i,
{
    if i > 0 {
        lemma_used(states, outs, i - 1);
        assert(states[i - 1].pull(outs[i - 1], &states[i - 1 + 1]));
    }
}

} // verus!
