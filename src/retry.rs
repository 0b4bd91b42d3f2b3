//! The retry policy of one URL check: a state machine that is told the
//! result of each attempt and answers whether to back off and try again or
//! to finish with an outcome.
use vstd::prelude::*;

verus! {

/// Pause between two attempts of one check, in milliseconds.
pub const BACKOFF_MS: u64 = 2000;

/// Text put before the transport error's own description in a failure.
pub open spec fn failure_prefix() -> Seq<char> {
    seq!['R', 'e', 'q', 'u', 'e', 's', 't', ' ', 'f', 'a', 'i', 'l', 'e', 'd', ':', ' ']
}

/// What one HTTP attempt gave: a response with its status code (any code),
/// or a transport error with its description.
pub enum AttemptResult {
    Response(u16),
    Failed(String),
}

/// The recorded outcome of a check.
pub enum CheckOutcome {
    Success { status_code: u16 },
    Failure { message: String },
}

/// What the worker does after an attempt.
pub enum Step {
    /// Sleep this many milliseconds, then attempt again.
    Retry { backoff_ms: u64 },
    /// Stop attempting; this is the check's outcome.
    Finish(CheckOutcome),
}

/// The progress of one check.
#[derive(Clone, Copy, PartialEq, Eq, Structural)]
pub struct RetryState {
    /// How many failed attempts may be followed by another attempt.
    pub retries: u32,
    /// Attempts made so far.
    pub attempts: u64,
    /// Sum of the backoff pauses asked for so far, in milliseconds.
    pub backoff_total_ms: u64,
    /// Whether an outcome has been given.
    pub done: bool,
}

impl RetryState {
    pub open spec fn wf(self) -> bool {
        &&& self.attempts <= self.retries + 1
        &&& !self.done ==> self.attempts <= self.retries
        &&& self.done ==> self.attempts >= 1
        &&& self.backoff_total_ms == (if self.done { self.attempts - 1 } else { self.attempts as int }) * BACKOFF_MS
    }

    /// The state before the first attempt.
    pub open spec fn initial(retries: u32) -> RetryState {
        RetryState { retries, attempts: 0, backoff_total_ms: 0, done: false }
    }

    /// The state after an attempt that failed (`failed`) or got a response.
    pub open spec fn next(self, failed: bool) -> RetryState {
        if failed && self.attempts < self.retries {
            RetryState {
                attempts: (self.attempts + 1) as u64,
                backoff_total_ms: (self.backoff_total_ms + BACKOFF_MS) as u64,
                ..self
            }
        } else {
            RetryState { attempts: (self.attempts + 1) as u64, done: true, ..self }
        }
    }

    /// The state after `n` attempts that all failed, starting from `self`.
    pub open spec fn after_failures(self, n: nat) -> RetryState
        decreases n,
    {
        if n == 0 {
            self
        } else {
            self.after_failures((n - 1) as nat).next(true)
        }
    }

    pub fn new(retries: u32) -> (r: RetryState)
        ensures
            r == RetryState::initial(retries),
            r.wf(),
    {
        RetryState { retries, attempts: 0, backoff_total_ms: 0, done: false }
    }

    /// Takes the result of the attempt just made and says what to do next:
    /// a response of any status ends the check in success; a transport error
    /// is retried after the backoff while fewer than `retries` attempts have
    /// failed before it, and otherwise ends the check in failure.
    pub fn on_attempt(&mut self, result: AttemptResult) -> (step: Step)
        requires
            old(self).wf(),
            !old(self).done,
        ensures
            *final(self) == old(self).next(result is Failed),
            final(self).wf(),
            match result {
                AttemptResult::Response(code) => step == Step::Finish(
                    CheckOutcome::Success { status_code: code },
                ),
                AttemptResult::Failed(e) => if old(self).attempts < old(self).retries {
                    step == (Step::Retry { backoff_ms: BACKOFF_MS })
                } else {
                    &&& step is Finish
                    &&& step->Finish_0 is Failure
                    &&& step->Finish_0->Failure_message@ == failure_prefix() + e@
                },
            },
    {
        self.attempts = self.attempts + 1;
        match result {
            AttemptResult::Response(code) => {
                self.done = true;
                Step::Finish(CheckOutcome::Success { status_code: code })
            },
            AttemptResult::Failed(e) => {
                if self.attempts <= self.retries as u64 {
                    self.backoff_total_ms = self.backoff_total_ms + BACKOFF_MS;
                    Step::Retry { backoff_ms: BACKOFF_MS }
                } else {
                    self.done = true;
                    let prefix = String::from_str("Request failed: ");
                    proof {
                        reveal_strlit("Request failed: ");
                    }
                    let message = prefix.concat(e.as_str());
                    Step::Finish(CheckOutcome::Failure { message })
                }
            },
        }
    }
}

/// A check whose every attempt fails makes exactly `retries + 1` attempts:
/// it is still going after each of the first `retries` failures and ends at
/// the next one, having asked for `retries` backoff pauses in all.
pub proof fn lemma_always_failing_attempts(retries: u32)
    ensures
        forall|k: nat|
            k <= retries ==> {
                let s = #[trigger] RetryState::initial(retries).after_failures(k);
                &&& !s.done
                &&& s.attempts == k
                &&& s.backoff_total_ms == k * BACKOFF_MS
            },
        RetryState::initial(retries).after_failures((retries + 1) as nat).done,
        RetryState::initial(retries).after_failures((retries + 1) as nat).attempts == retries + 1,
        RetryState::initial(retries).after_failures((retries + 1) as nat).backoff_total_ms
            == retries * BACKOFF_MS,
{
    assert forall|k: nat| k <= retries implies {
        let s = #[trigger] RetryState::initial(retries).after_failures(k);
        &&& !s.done
        &&& s.attempts == k
        &&& s.backoff_total_ms == k * BACKOFF_MS
    } by {
        lemma_failures_prefix(retries, k);
    }
    lemma_failures_prefix(retries, retries as nat);
}

proof fn lemma_failures_prefix(retries: u32, k: nat)
    requires
        k <= retries,
    ensures
        !RetryState::initial(retries).after_failures(k).done,
        RetryState::initial(retries).after_failures(k).attempts == k,
        RetryState::initial(retries).after_failures(k).backoff_total_ms == k * BACKOFF_MS,
        RetryState::initial(retries).after_failures(k).retries == retries,
    decreases k,
{
    if k > 0 {
        lemma_failures_prefix(retries, (k - 1) as nat);
        assert((k - 1) * BACKOFF_MS + BACKOFF_MS == k * BACKOFF_MS) by (nonlinear_arith);
        assert(k * BACKOFF_MS <= u32::MAX * BACKOFF_MS) by (nonlinear_arith)
            requires k <= u32::MAX;
    }
}

/// A check whose first attempt gets a response ends at once: one attempt and
/// no backoff.
pub proof fn lemma_first_response_no_backoff(retries: u32)
    ensures
        RetryState::initial(retries).next(false).done,
        RetryState::initial(retries).next(false).attempts == 1,
        RetryState::initial(retries).next(false).backoff_total_ms == 0,
{
}

/// With no retries a check ends after its first attempt, whatever it gave.
pub proof fn lemma_no_retries_single_attempt(failed: bool)
    ensures
        RetryState::initial(0).next(failed).done,
        RetryState::initial(0).next(failed).attempts == 1,
{
}

} // verus!
