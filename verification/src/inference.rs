//! Requests to the inference service: where they go, when a failed attempt is
//! tried again and after which delay, and how a final failure is worded.

use crate::error::AppError;
use crate::http::{
    describe_failure, failure_text, is_success_status, retryable_status, should_retry_status,
    status_text, success_status,
};
use crate::text::{from_chars, join, joined, to_chars, trim_end_char, without_trailing};
use vstd::prelude::*;
use vstd::string::StringExecFns;

verus! {

/// What the inference service is asked for.
#[derive(Clone, Copy, Debug, PartialEq, Eq, Structural)]
pub enum Task {
    /// The embedding of a text.
    Embedding,
    /// The summary of a text.
    Summary,
}

impl Task {
    /// The word for the task in error messages.
    pub open spec fn noun_text(self) -> Seq<char> {
        match self {
            Task::Embedding => "embedding"@,
            Task::Summary => "summary"@,
        }
    }

    /// The name of the task's pipeline at the service.
    pub open spec fn pipeline_text(self) -> Seq<char> {
        match self {
            Task::Embedding => "feature-extraction"@,
            Task::Summary => "summarization"@,
        }
    }

    pub fn noun(self) -> (r: &'static str)
        ensures
            r@ == self.noun_text(),
    {
        match self {
            Task::Embedding => "embedding",
            Task::Summary => "summary",
        }
    }

    pub fn pipeline(self) -> (r: &'static str)
        ensures
            r@ == self.pipeline_text(),
    {
        match self {
            Task::Embedding => "feature-extraction",
            Task::Summary => "summarization",
        }
    }
}

/// The longest summary that is asked for, in tokens.
pub const SUMMARY_MAX_LENGTH: u32 = 220;

/// The shortest summary that is asked for, in tokens.
pub const SUMMARY_MIN_LENGTH: u32 = 80;

/// The address of a model's pipeline for `task`.
pub open spec fn inference_url_text(base_url: Seq<char>, model: Seq<char>, task: Task) -> Seq<
    char,
> {
    without_trailing(base_url, '/') + "/"@ + model + "/pipeline/"@ + task.pipeline_text()
}

/// The address to which the requests for `task` with `model` are sent.
pub fn inference_url(base_url: &str, model: &str, task: Task) -> (url: String)
    ensures
        url@ == inference_url_text(base_url@, model@, task),
{
    let mut base: Vec<char> = to_chars(base_url);
    trim_end_char(&mut base, '/');
    let mut url: String = from_chars(&base, 0, base.len());
    assert(base@.subrange(0, base.len() as int) == base@);
    url.append("/");
    url.append(model);
    url.append("/pipeline/");
    url.append(task.pipeline());
    url
}

/// How often and how patiently a request is tried again.
#[derive(Clone, Copy, Debug, PartialEq, Eq, Structural)]
pub struct RetryPolicy {
    /// How many times a failed request is sent again.
    pub max_retries: usize,
    /// The delay before the first retry, in milliseconds.
    pub base_delay_ms: u64,
    /// The cap on the delay of later retries, in milliseconds.
    pub max_delay_ms: u64,
}

/// Where a request stands in its retries.
#[derive(Clone, Copy, Debug, PartialEq, Eq, Structural)]
pub struct RetryState {
    /// How many attempts have failed so far.
    pub attempt: usize,
    /// The delay before the next retry, in milliseconds.
    pub delay_ms: u64,
}

/// What one attempt gave.
#[derive(Clone, Copy, Debug, PartialEq, Eq, Structural)]
pub enum AttemptOutcome {
    /// The service answered with this status.
    Answered(u16),
    /// The request could not be sent, or no answer came.
    SendFailed,
}

/// What follows an attempt.
#[derive(Clone, Copy, Debug, PartialEq, Eq, Structural)]
pub enum RetryDecision {
    /// The answer is a success: its body is parsed.
    Accept,
    /// Wait for `delay_ms` milliseconds and send the request again.
    Retry { delay_ms: u64, next: RetryState },
    /// The service's answer is final: the request fails with status and body.
    Reject,
    /// The request could not be sent at the last attempt: it fails.
    Abandon,
}

/// The smaller of two numbers.
pub open spec fn least(a: int, b: int) -> int {
    if a <= b {
        a
    } else {
        b
    }
}

impl RetryPolicy {
    /// The state before the first attempt.
    pub open spec fn initial(self) -> RetryState {
        RetryState { attempt: 0, delay_ms: self.base_delay_ms }
    }

    /// The state after one more failed attempt: the delay doubles, up to the cap.
    pub open spec fn following(self, state: RetryState) -> RetryState {
        RetryState {
            attempt: (state.attempt + 1) as usize,
            delay_ms: least(2 * state.delay_ms, self.max_delay_ms as int) as u64,
        }
    }

    /// The decision after an attempt in `state` gave `outcome`.
    ///
    /// A success is accepted whenever it comes. A failure is retried while
    /// retries are left, a status only where it is retryable.
    pub open spec fn decision(self, state: RetryState, outcome: AttemptOutcome) -> RetryDecision {
        match outcome {
            AttemptOutcome::Answered(status) => if success_status(status) {
                RetryDecision::Accept
            } else if state.attempt < self.max_retries && retryable_status(status) {
                RetryDecision::Retry { delay_ms: state.delay_ms, next: self.following(state) }
            } else {
                RetryDecision::Reject
            },
            AttemptOutcome::SendFailed => if state.attempt < self.max_retries {
                RetryDecision::Retry { delay_ms: state.delay_ms, next: self.following(state) }
            } else {
                RetryDecision::Abandon
            },
        }
    }

    /// The state after `retries` failed attempts.
    pub open spec fn after(self, retries: nat) -> RetryState
        decreases retries,
    {
        if retries == 0 {
            self.initial()
        } else {
            self.following(self.after((retries - 1) as nat))
        }
    }

    /// The state before the first attempt.
    pub fn start(&self) -> (state: RetryState)
        ensures
            state == self.initial(),
    {
        RetryState { attempt: 0, delay_ms: self.base_delay_ms }
    }

    /// Decides what follows an attempt in `state` that gave `outcome`.
    pub fn decide(&self, state: RetryState, outcome: AttemptOutcome) -> (decision: RetryDecision)
        ensures
            decision == self.decision(state, outcome),
            decision matches RetryDecision::Retry { delay_ms, next } ==> state.attempt
                < self.max_retries && next.attempt == state.attempt + 1 && delay_ms
                == state.delay_ms,
    {
        match outcome {
            AttemptOutcome::Answered(status) => {
                if is_success_status(status) {
                    return RetryDecision::Accept;
                }
                if !(state.attempt < self.max_retries && should_retry_status(status)) {
                    return RetryDecision::Reject;
                }
            },
            AttemptOutcome::SendFailed => {
                if !(state.attempt < self.max_retries) {
                    return RetryDecision::Abandon;
                }
            },
        }
        let doubled: u64 = if state.delay_ms > self.max_delay_ms / 2 {
            self.max_delay_ms
        } else {
            state.delay_ms * 2
        };
        RetryDecision::Retry {
            delay_ms: state.delay_ms,
            next: RetryState { attempt: state.attempt + 1, delay_ms: doubled },
        }
    }
}

/// `base` doubled `times` times.
pub open spec fn doubled(base: nat, times: nat) -> nat
    decreases times,
{
    if times == 0 {
        base
    } else {
        2 * doubled(base, (times - 1) as nat)
    }
}

/// The delays of the retries are the base delay, twice the base delay, four
/// times the base delay and so on, each clamped at the cap, for a base delay
/// that is itself no more than the cap. The number of failed attempts is the
/// number of retries.
pub proof fn lemma_backoff_sequence(policy: RetryPolicy, retries: nat)
    requires
        policy.base_delay_ms <= policy.max_delay_ms,
        retries <= usize::MAX,
    ensures
        policy.after(retries).delay_ms == least(
            doubled(policy.base_delay_ms as nat, retries) as int,
            policy.max_delay_ms as int,
        ),
        policy.after(retries).attempt == retries,
    decreases retries,
{
    if retries > 0 {
        lemma_backoff_sequence(policy, (retries - 1) as nat);
    }
}

/// Whatever the base delay, from the second retry on no delay is above the cap.
pub proof fn lemma_backoff_capped(policy: RetryPolicy, retries: nat)
    requires
        retries >= 1,
    ensures
        policy.after(retries).delay_ms <= policy.max_delay_ms,
{
}

impl RetryPolicy {
    /// How many attempts are made from `state` on, when the attempts give
    /// `outcomes` in order: an attempt is made for each outcome until one
    /// ends the request.
    pub open spec fn attempts(self, state: RetryState, outcomes: Seq<AttemptOutcome>) -> nat
        decreases outcomes.len(),
    {
        if outcomes.len() == 0 {
            0
        } else {
            match self.decision(state, outcomes.first()) {
                RetryDecision::Retry { delay_ms, next } => 1 + self.attempts(
                    next,
                    outcomes.drop_first(),
                ),
                _ => 1,
            }
        }
    }

    /// The delays that are waited from `state` on, in order, when the
    /// attempts give `outcomes`.
    pub open spec fn delays(self, state: RetryState, outcomes: Seq<AttemptOutcome>) -> Seq<u64>
        decreases outcomes.len(),
    {
        if outcomes.len() == 0 {
            Seq::empty()
        } else {
            match self.decision(state, outcomes.first()) {
                RetryDecision::Retry { delay_ms, next } => seq![delay_ms] + self.delays(
                    next,
                    outcomes.drop_first(),
                ),
                _ => Seq::empty(),
            }
        }
    }
}

/// Whatever the attempts give, a request is sent at most `max_retries + 1`
/// times.
pub proof fn lemma_attempts_bounded(policy: RetryPolicy, outcomes: Seq<AttemptOutcome>)
    ensures
        policy.attempts(policy.initial(), outcomes) <= policy.max_retries + 1,
{
    lemma_attempts_left(policy, policy.initial(), outcomes);
}

proof fn lemma_attempts_left(
    policy: RetryPolicy,
    state: RetryState,
    outcomes: Seq<AttemptOutcome>,
)
    requires
        state.attempt <= policy.max_retries,
    ensures
        policy.attempts(state, outcomes) + state.attempt <= policy.max_retries + 1,
    decreases outcomes.len(),
{
    if outcomes.len() > 0 {
        match policy.decision(state, outcomes.first()) {
            RetryDecision::Retry { delay_ms, next } => {
                lemma_attempts_left(policy, next, outcomes.drop_first());
            },
            _ => {},
        }
    }
}

/// Whatever the attempts give, the delay that is waited before retry number
/// `k`, counting from 0, is the delay of the policy's state after `k` failed
/// attempts: the delays depend on nothing but the policy.
pub proof fn lemma_delays_follow_policy(
    policy: RetryPolicy,
    outcomes: Seq<AttemptOutcome>,
    k: int,
)
    requires
        0 <= k < policy.delays(policy.initial(), outcomes).len(),
    ensures
        policy.delays(policy.initial(), outcomes)[k] == policy.after(k as nat).delay_ms,
{
    lemma_delays_from(policy, 0, outcomes, k);
}

proof fn lemma_delays_from(
    policy: RetryPolicy,
    failed: nat,
    outcomes: Seq<AttemptOutcome>,
    k: int,
)
    requires
        0 <= k < policy.delays(policy.after(failed), outcomes).len(),
    ensures
        policy.delays(policy.after(failed), outcomes)[k] == policy.after(
            failed + k as nat,
        ).delay_ms,
    decreases outcomes.len(),
{
    let state = policy.after(failed);
    if outcomes.len() > 0 {
        match policy.decision(state, outcomes.first()) {
            RetryDecision::Retry { delay_ms, next } => {
                assert(next == policy.after(failed + 1));
                if k > 0 {
                    lemma_delays_from(policy, failed + 1, outcomes.drop_first(), k - 1);
                    assert(failed + 1 + (k - 1) as nat == failed + k as nat);
                }
            },
            _ => {},
        }
    }
}

/// What failed when the service rejected a request for `task`.
pub open spec fn rejection_context(task: Task) -> Seq<char> {
    task.noun_text() + " request failed"@
}

/// The error of a request for `task` that the service answered with `status`
/// and `body`.
pub fn rejection_error(task: Task, status: u16, body: &str) -> (e: AppError)
    ensures
        e matches AppError::HuggingFace(detail) && detail@ == failure_text(
            rejection_context(task),
            status_text(status),
            body@,
        ),
{
    let mut context = String::new();
    context.append(task.noun());
    context.append(" request failed");
    AppError::HuggingFace(describe_failure(context.as_str(), status, body))
}

/// The error of a request for `task` that could not be sent.
pub fn send_error(task: Task, detail: &str) -> (e: AppError)
    ensures
        e matches AppError::HuggingFace(text) && text@ == task.noun_text()
            + " request failed to send: "@ + detail@,
{
    let mut text = String::new();
    text.append(task.noun());
    text.append(" request failed to send: ");
    text.append(detail);
    AppError::HuggingFace(text)
}

/// What is known of a request that could not be sent or was not answered.
#[derive(Clone, Debug, PartialEq, Eq)]
pub struct TransportFailure {
    /// The failure in its own words.
    pub message: String,
    /// The address that the request went to, where it is known.
    pub url: Option<String>,
    /// The request timed out.
    pub timeout: bool,
    /// The connection could not be made.
    pub connect: bool,
    /// The request itself was at fault.
    pub request: bool,
    /// The failure stems from the status of the answer.
    pub status: bool,
    /// The causes of the failure, the nearest first.
    pub sources: Vec<String>,
}

/// `tail` added to `parts` where `present`.
pub open spec fn with_part(parts: Seq<Seq<char>>, present: bool, part: Seq<char>) -> Seq<
    Seq<char>,
> {
    if present {
        parts.push(part)
    } else {
        parts
    }
}

impl TransportFailure {
    /// The particulars of the failure: the address, the kinds that apply, and
    /// the chain of causes joined by colons.
    pub open spec fn parts(&self) -> Seq<Seq<char>> {
        let with_url = match self.url {
            Some(url) => seq!["url="@ + url@],
            None => Seq::empty(),
        };
        let with_timeout = with_part(with_url, self.timeout, "timeout"@);
        let with_connect = with_part(with_timeout, self.connect, "connect"@);
        let with_request = with_part(with_connect, self.request, "request"@);
        let with_status = with_part(with_request, self.status, "status"@);
        with_part(
            with_status,
            self.sources@.len() > 0,
            "source="@ + joined(self.sources.deep_view(), ": "@),
        )
    }

    /// The failure in words: its message, followed in parentheses by its
    /// particulars, separated by commas, where there are any.
    pub open spec fn description(&self) -> Seq<char> {
        if self.parts().len() == 0 {
            self.message@
        } else {
            self.message@ + " ("@ + joined(self.parts(), ", "@) + ")"@
        }
    }

    /// Describes the failure for an error message.
    pub fn describe(&self) -> (text: String)
        ensures
            text@ == self.description(),
    {
        let mut parts: Vec<String> = Vec::new();
        assert(parts.deep_view() == Seq::<Seq<char>>::empty());
        match &self.url {
            Some(url) => {
                let mut part = String::new();
                part.append("url=");
                part.append(url.as_str());
                parts.push(part);
                assert(parts.deep_view() == seq!["url="@ + url@]);
            },
            None => {},
        }
        if self.timeout {
            push_part(&mut parts, "timeout");
        }
        if self.connect {
            push_part(&mut parts, "connect");
        }
        if self.request {
            push_part(&mut parts, "request");
        }
        if self.status {
            push_part(&mut parts, "status");
        }
        if self.sources.len() > 0 {
            let mut part = String::new();
            part.append("source=");
            let chain: String = join(&self.sources, ": ");
            part.append(chain.as_str());
            let ghost before = parts.deep_view();
            parts.push(part);
            assert(parts.deep_view() == before.push(part@));
        }
        assert(parts.deep_view() == self.parts());
        let mut text: String = self.message.clone();
        if parts.len() > 0 {
            text.append(" (");
            let list: String = join(&parts, ", ");
            text.append(list.as_str());
            text.append(")");
        }
        text
    }
}

fn push_part(parts: &mut Vec<String>, part: &str)
    ensures
        final(parts).deep_view() == old(parts).deep_view().push(part@),
{
    parts.push(part.to_owned());
    assert(parts.deep_view() == old(parts).deep_view().push(part@));
}

} // verus!
