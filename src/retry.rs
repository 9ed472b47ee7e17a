//! The Retry Orchestrator's decisions: after each attempt's run, stop with
//! success, wait and retry, or report exhaustion.

use vstd::prelude::*;

verus! {

/// Attempts made before the orchestrator gives up, unless configured.
pub const DEFAULT_MAX_ATTEMPTS: u32 = 3;

/// Delay between attempts in milliseconds, unless configured.
pub const DEFAULT_RETRY_DELAY_MS: u64 = 5000;

/// What to do once an attempt's run result is known.
#[derive(PartialEq, Eq, Structural, Debug, Clone, Copy)]
pub enum Decision {
    /// The run produced usable buffers: hand them on and stop.
    Success,
    /// The run was empty: wait this many milliseconds, then attempt again.
    Retry(u64),
    /// The run was empty on the last allowed attempt: no content available.
    Exhausted,
}

/// The orchestrator's state: the attempt in progress (counted from 1), the
/// number of attempts allowed and the delay between attempts.
#[derive(PartialEq, Eq, Structural, Debug, Clone, Copy)]
pub struct AttemptState {
    pub attempt: u32,
    pub max_attempts: u32,
    pub delay_ms: u64,
}

impl AttemptState {
    pub open spec fn wf(self) -> bool {
        1 <= self.attempt <= self.max_attempts
    }

    /// The state before the first attempt.
    pub open spec fn initial(max_attempts: u32, delay_ms: u64) -> AttemptState {
        AttemptState { attempt: 1, max_attempts, delay_ms }
    }

    /// The next state and the decision, given how many usable buffers the
    /// current attempt produced.
    pub open spec fn next(self, usable: nat) -> (AttemptState, Decision) {
        if usable > 0 {
            (self, Decision::Success)
        } else if self.attempt < self.max_attempts {
            (AttemptState { attempt: (self.attempt + 1) as u32, ..self }, Decision::Retry(self.delay_ms))
        } else {
            (self, Decision::Exhausted)
        }
    }

    /// Starts at the first attempt.
    pub fn new(max_attempts: u32, delay_ms: u64) -> (r: AttemptState)
        requires
            max_attempts >= 1,
        ensures
            r == AttemptState::initial(max_attempts, delay_ms),
            r.wf(),
    {
        AttemptState { attempt: 1, max_attempts, delay_ms }
    }

    /// Starts at the first attempt, with the default bound and delay.
    pub fn with_defaults() -> (r: AttemptState)
        ensures
            r == AttemptState::initial(DEFAULT_MAX_ATTEMPTS, DEFAULT_RETRY_DELAY_MS),
            r.wf(),
    {
        AttemptState::new(DEFAULT_MAX_ATTEMPTS, DEFAULT_RETRY_DELAY_MS)
    }

    /// Decides, from the number of usable buffers the current attempt
    /// produced, whether to stop or to retry, and advances the attempt count
    /// when retrying.
    pub fn evaluate(&mut self, usable: usize) -> (d: Decision)
        requires
            old(self).wf(),
        ensures
            (*final(self), d) == old(self).next(usable as nat),
            final(self).wf(),
    {
        if usable > 0 {
            Decision::Success
        } else if self.attempt < self.max_attempts {
            self.attempt = self.attempt + 1;
            Decision::Retry(self.delay_ms)
        } else {
            Decision::Exhausted
        }
    }
}

/// The decisions taken from `state` on, given the number of usable buffers of
/// each attempt in turn, up to the first decision that is not a retry.
pub open spec fn decisions(state: AttemptState, usable: Seq<nat>) -> Seq<Decision>
    decreases usable.len(),
{
    if usable.len() == 0 {
        Seq::empty()
    } else {
        let (next, d) = state.next(usable[0]);
        if d is Retry {
            seq![d] + decisions(next, usable.drop_first())
        } else {
            seq![d]
        }
    }
}

/// When every attempt comes back empty, the orchestrator makes exactly
/// `max_attempts` attempts: it retries after each of the first
/// `max_attempts - 1`, each time with the configured delay, and reports
/// exhaustion after the last, never attempting again.
pub proof fn lemma_retry_bound(max_attempts: u32, delay_ms: u64, usable: Seq<nat>)
    requires
        max_attempts >= 1,
        usable.len() >= max_attempts,
        forall|i: int| 0 <= i < usable.len() ==> #[trigger] usable[i] == 0,
    ensures
        decisions(AttemptState::initial(max_attempts, delay_ms), usable).len() == max_attempts,
        forall|i: int|
            0 <= i < max_attempts - 1 ==> #[trigger] decisions(
                AttemptState::initial(max_attempts, delay_ms),
                usable,
            )[i] == Decision::Retry(delay_ms),
        decisions(AttemptState::initial(max_attempts, delay_ms), usable)[max_attempts - 1]
            == Decision::Exhausted,
{
    lemma_empty_runs_from(AttemptState::initial(max_attempts, delay_ms), usable);
}

proof fn lemma_empty_runs_from(s: AttemptState, usable: Seq<nat>)
    requires
        s.wf(),
        usable.len() >= s.max_attempts - s.attempt + 1,
        forall|i: int| 0 <= i < usable.len() ==> #[trigger] usable[i] == 0,
    ensures
        decisions(s, usable).len() == s.max_attempts - s.attempt + 1,
        forall|i: int|
            0 <= i < s.max_attempts - s.attempt ==> #[trigger] decisions(s, usable)[i]
                == Decision::Retry(s.delay_ms),
        decisions(s, usable)[s.max_attempts - s.attempt] == Decision::Exhausted,
    decreases s.max_attempts - s.attempt,
{
    assert(usable[0] == 0);
    if s.attempt < s.max_attempts {
        let next = s.next(0).0;
        let rest = usable.drop_first();
        assert forall|i: int| 0 <= i < rest.len() implies #[trigger] rest[i] == 0 by {
            assert(rest[i] == usable[i + 1]);
        }
        lemma_empty_runs_from(next, rest);
        let whole = decisions(s, usable);
        assert(whole == seq![Decision::Retry(s.delay_ms)] + decisions(next, rest));
        assert forall|i: int| 0 <= i < s.max_attempts - s.attempt implies #[trigger] whole[i]
            == Decision::Retry(s.delay_ms) by {
            if i > 0 {
                assert(whole[i] == decisions(next, rest)[i - 1]);
            }
        }
    }
}

} // verus!
