use vstd::prelude::*;
use crate::config::RetryConfig;
use crate::error::TimberlogsError;

verus! {

/// What one delivery attempt came to.
pub enum AttemptOutcome {
    /// A 2xx answer whose acknowledgement could be read.
    Delivered,
    /// A 2xx answer whose acknowledgement could not be read.
    InvalidAck(String),
    /// A non-2xx answer, with its status and body text.
    Http { status: u16, body: String },
    /// No answer: the connection, DNS or a timeout failed.
    Transport(String),
}

/// What the sender does after an attempt.
pub enum RetryStep {
    /// Stop and report this result.
    Finished(Result<(), TimberlogsError>),
    /// Sleep this many milliseconds, then attempt again.
    Wait(u64),
}

/// Whether an outcome is worth another attempt.
pub open spec fn retryable(o: AttemptOutcome) -> bool {
    o is Http || o is Transport
}

/// The error an unsuccessful outcome stands for.
pub open spec fn outcome_error(o: AttemptOutcome) -> TimberlogsError {
    match o {
        AttemptOutcome::Http { status, body } => TimberlogsError::Http { status, body },
        AttemptOutcome::Transport(m) => TimberlogsError::Request(m),
        AttemptOutcome::InvalidAck(m) => TimberlogsError::Request(m),
        AttemptOutcome::Delivered => TimberlogsError::NotConnected,
    }
}

/// The delay after `d`: doubled, and capped at `max`.
pub open spec fn next_delay(d: u64, max: u64) -> u64 {
    if 2 * d < max {
        (2 * d) as u64
    } else {
        max
    }
}

pub fn backoff(d: u64, max: u64) -> (r: u64)
    ensures
        r == next_delay(d, max),
{
    match d.checked_mul(2) {
        Some(doubled) => if doubled < max { doubled } else { max },
        None => max,
    }
}

/// Whether an HTTP status counts as success.
pub open spec fn success_status(status: u16) -> bool {
    200 <= status < 300
}

pub fn is_success_status(status: u16) -> (r: bool)
    ensures
        r == success_status(status),
{
    200 <= status && status < 300
}

/// Progress of one batch send: attempts made after a failure so far, and
/// the delay before the next one.
pub struct RetryState {
    pub retries: u32,
    pub delay_ms: u64,
    pub policy: RetryConfig,
}

/// The state before the first attempt.
pub open spec fn start_state(policy: RetryConfig) -> RetryState {
    RetryState { retries: 0, delay_ms: policy.initial_delay_ms, policy }
}

/// One step of the sender: the state after an attempt with outcome `o`, and
/// what to do next.
pub open spec fn step_state(s: RetryState, o: AttemptOutcome) -> RetryState {
    if retryable(o) && s.retries < s.policy.max_retries {
        RetryState {
            retries: (s.retries + 1) as u32,
            delay_ms: next_delay(s.delay_ms, s.policy.max_delay_ms),
            policy: s.policy,
        }
    } else {
        s
    }
}

pub open spec fn step_action(s: RetryState, o: AttemptOutcome) -> RetryStep {
    match o {
        AttemptOutcome::Delivered => RetryStep::Finished(Ok(())),
        _ => if retryable(o) && s.retries < s.policy.max_retries {
            RetryStep::Wait(s.delay_ms)
        } else {
            RetryStep::Finished(Err(outcome_error(o)))
        },
    }
}

/// Runs the sender over the outcomes of successive attempts. The result and
/// the number of attempts it took, or `None` if the outcomes ran out first.
pub open spec fn run_attempts(s: RetryState, outcomes: Seq<AttemptOutcome>) -> Option<(Result<(), TimberlogsError>, nat)>
    decreases outcomes.len(),
{
    if outcomes.len() == 0 {
        None
    } else {
        match step_action(s, outcomes[0]) {
            RetryStep::Finished(res) => Some((res, 1)),
            RetryStep::Wait(_) => match run_attempts(step_state(s, outcomes[0]), outcomes.drop_first()) {
                Some((res, n)) => Some((res, n + 1)),
                None => None,
            },
        }
    }
}

impl RetryState {
    pub fn new(policy: &RetryConfig) -> (r: RetryState)
        ensures
            r == start_state(*policy),
    {
        RetryState { retries: 0, delay_ms: policy.initial_delay_ms, policy: *policy }
    }

    /// Takes in the outcome of the attempt just made and says what comes next:
    /// success ends the send; a retryable failure waits the current delay while
    /// retries remain, and is reported once they are spent.
    pub fn record(&mut self, outcome: AttemptOutcome) -> (r: RetryStep)
        ensures
            r == step_action(*old(self), outcome),
            *final(self) == step_state(*old(self), outcome),
    {
        match outcome {
            AttemptOutcome::Delivered => RetryStep::Finished(Ok(())),
            AttemptOutcome::InvalidAck(m) => RetryStep::Finished(Err(TimberlogsError::Request(m))),
            AttemptOutcome::Http { status, body } => {
                if self.retries < self.policy.max_retries {
                    let wait = self.delay_ms;
                    self.retries = self.retries + 1;
                    self.delay_ms = backoff(self.delay_ms, self.policy.max_delay_ms);
                    RetryStep::Wait(wait)
                } else {
                    RetryStep::Finished(Err(TimberlogsError::Http { status, body }))
                }
            },
            AttemptOutcome::Transport(m) => {
                if self.retries < self.policy.max_retries {
                    let wait = self.delay_ms;
                    self.retries = self.retries + 1;
                    self.delay_ms = backoff(self.delay_ms, self.policy.max_delay_ms);
                    RetryStep::Wait(wait)
                } else {
                    RetryStep::Finished(Err(TimberlogsError::Request(m)))
                }
            },
        }
    }
}

/// After retryable failures that leave a retry to spare, a delivered attempt
/// makes the whole send succeed, one attempt per outcome.
pub proof fn lemma_recovers_after_failures(s: RetryState, failures: Seq<AttemptOutcome>)
    requires
        forall|i: int| 0 <= i < failures.len() ==> retryable(#[trigger] failures[i]),
        s.retries + failures.len() <= s.policy.max_retries,
    ensures
        run_attempts(s, failures.push(AttemptOutcome::Delivered)) == Some::<(Result<(), TimberlogsError>, nat)>((Ok(()), failures.len() + 1)),
    decreases failures.len(),
{
    let all = failures.push(AttemptOutcome::Delivered);
    if failures.len() > 0 {
        assert(all.drop_first() =~= failures.drop_first().push(AttemptOutcome::Delivered));
        assert(retryable(failures[0]));
        lemma_recovers_after_failures(step_state(s, failures[0]), failures.drop_first());
    }
}

/// When every attempt fails in a retryable way, the send makes exactly
/// `1 + max_retries` attempts and reports the error of the last one.
pub proof fn lemma_exhausted_reports_last(s: RetryState, outcomes: Seq<AttemptOutcome>)
    requires
        forall|i: int| 0 <= i < outcomes.len() ==> retryable(#[trigger] outcomes[i]),
        s.retries <= s.policy.max_retries,
        outcomes.len() == s.policy.max_retries - s.retries + 1,
    ensures
        run_attempts(s, outcomes) == Some::<(Result<(), TimberlogsError>, nat)>((Err(outcome_error(outcomes.last())), outcomes.len())),
    decreases outcomes.len(),
{
    assert(retryable(outcomes[0]));
    if s.retries < s.policy.max_retries {
        let rest = outcomes.drop_first();
        assert(rest.last() == outcomes.last());
        assert forall|i: int| 0 <= i < rest.len() implies retryable(#[trigger] rest[i]) by {
            assert(rest[i] == outcomes[i + 1]);
        }
        lemma_exhausted_reports_last(step_state(s, outcomes[0]), rest);
    }
}

/// A send with a retry to spare whose first attempt gets a server error and
/// whose second is delivered succeeds after exactly two attempts; the two
/// lemmas above give the general forms.
pub proof fn lemma_one_retry_suffices(policy: RetryConfig, status: u16, body: String)
    requires
        policy.max_retries >= 1,
    ensures
        run_attempts(
            start_state(policy),
            seq![AttemptOutcome::Http { status, body }, AttemptOutcome::Delivered],
        ) == Some::<(Result<(), TimberlogsError>, nat)>((Ok(()), 2)),
{
    let failures = seq![AttemptOutcome::Http { status, body }];
    assert(failures.push(AttemptOutcome::Delivered) =~= seq![AttemptOutcome::Http { status, body }, AttemptOutcome::Delivered]);
    lemma_recovers_after_failures(start_state(policy), failures);
}

/// Every wait after the first is at most the configured maximum delay.
pub proof fn lemma_backoff_capped(d: u64, max: u64)
    ensures
        next_delay(d, max) <= max,
        next_delay(d, max) <= 2 * d,
{
}

} // verus!
