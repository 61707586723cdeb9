use crate::strategy::{is_run, FusedStrategy, RetryStrategy};
use std::time::Duration;
use vstd::prelude::*;

verus! {

/// A retry strategy backed by an explicit sequence of waits.
#[derive(Debug, Clone)]
pub struct FromIterator {
    delays: Vec<Duration>,
    position: usize,
}

impl FromIterator {
    /// The waits that have not been yielded yet, in the order of their yield.
    pub closed spec fn remaining(&self) -> Seq<Duration> {
        if self.position <= self.delays@.len() {
            self.delays@.skip(self.position as int)
        } else {
            Seq::empty()
        }
    }

    /// A strategy that yields `delays` in order and then gives up.
    pub fn new(delays: Vec<Duration>) -> (s: FromIterator)
        ensures
            s.remaining() == delays@,
    {
        FromIterator { delays, position: 0 }
    }
}

impl RetryStrategy for FromIterator {
    open spec fn pull(&self, out: Option<Duration>, next: &Self) -> bool {
        if self.remaining().len() > 0 {
            out == Some(self.remaining()[0]) && next.remaining() == self.remaining().skip(1)
        } else {
            out is None && next.remaining() == self.remaining()
        }
    }

    fn delay(&mut self) -> (out: Option<Duration>) {
        if self.position < self.delays.len() {
            let duration = self.delays[self.position];
            self.position += 1;
            assert(self.remaining() =~= old(self).remaining().skip(1));
            Some(duration)
        } else {
            None
        }
    }
}

impl FusedStrategy for FromIterator {
    open spec fn exhausted(&self) -> bool {
        self.remaining().len() == 0
    }

    proof fn lemma_none_is_permanent(&self, out: Option<Duration>, next: &Self) {
    }
}

/// A strategy made from `delays` yields exactly these waits, in order, and
/// `None` on every pull after them.
pub proof fn lemma_from_iterator_sequence(
    states: Seq<FromIterator>,
    outs: Seq<Option<Duration>>,
    delays: Seq<Duration>,
    i: int,
)
    requires
        is_run(states, outs),
        states[0].remaining() == delays,
        0 <= i < outs.len(),
    ensures
        outs[i] == (if i < delays.len() {
            Some(delays[i])
        } else {
            None
        }),
{
    lemma_remaining(states, outs, i);
    assert(states[i].pull(outs[i], &states[i + 1]));
}

/// After `i` pulls, all but the first `i` waits remain.
proof fn lemma_remaining(states: Seq<FromIterator>, outs: Seq<Option<Duration>>, i: int)
    requires
        is_run(states, outs),
        0 <= i <= outs.len(),
    ensures
        states[i].remaining() == (if i < states[0].remaining().len() {
            states[0].remaining().skip(i)
        } else {
            Seq::empty()
        }),
    decreases i,
{
    if i > 0 {
        lemma_remaining(states, outs, i - 1);
        assert(states[i - 1].pull(outs[i - 1], &states[i - 1 + 1]));
    }
}

} // verus!
