//! The retry loop of one logical request, as a state machine.
//!
//! The caller runs the loop: it obtains a permit, performs one HTTP attempt,
//! reports how the attempt ended, and is told either to wait and go round
//! again or to return a final result.

use crate::backoff::Delay;
use crate::backoff::RetryDecision;
use crate::backoff::RetryPolicy;
use crate::classifier::classify;
use crate::classifier::classify_attempt;
use crate::classifier::retry_after_seconds;
use crate::classifier::AttemptOutcome;
use crate::classifier::AttemptOutcomeView;
use crate::classifier::AttemptResult;
use crate::classifier::AttemptResultView;
use crate::classifier::HttpResponseView;
use crate::error::Error;
use crate::error::ErrorKind;
use crate::error::ErrorView;
use crate::rate_limiter::RateLimitPermit;
use crate::rate_limiter::RateLimiter;
use vstd::prelude::*;

verus! {

/// Progress of one logical request. The attempt number starts at 1.
#[derive(Debug)]
pub struct RetryState {
    attempt_number: u64,
    last_kind: Option<ErrorKind>,
    started_at: u64,
}

/// Mathematical value of a [`RetryState`].
pub struct RetryStateView {
    /// Number of the attempt that is due or under way.
    pub attempt_number: nat,
    /// Kind of the failure that ended the attempt before, if there was one.
    pub last_kind: Option<ErrorKind>,
    /// The caller's clock reading when the request began.
    pub started_at: u64,
}

impl View for RetryState {
    type V = RetryStateView;

    closed spec fn view(&self) -> RetryStateView {
        RetryStateView {
            attempt_number: self.attempt_number as nat,
            last_kind: self.last_kind,
            started_at: self.started_at,
        }
    }
}

impl RetryStateView {
    /// The state of a request that has made no attempt yet.
    pub open spec fn initial(started_at: u64) -> RetryStateView {
        RetryStateView { attempt_number: 1, last_kind: None, started_at }
    }

    /// The state after an attempt failed with `kind` and another is to follow.
    pub open spec fn after_failure(self, kind: ErrorKind) -> RetryStateView {
        RetryStateView {
            attempt_number: self.attempt_number + 1,
            last_kind: Some(kind),
            started_at: self.started_at,
        }
    }
}

impl RetryState {
    #[verifier::type_invariant]
    spec fn counted_from_one(self) -> bool {
        self.attempt_number >= 1
    }

    /// The state of a request that begins at the clock reading `started_at`.
    pub fn begin(started_at: u64) -> (state: Self)
        ensures
            state@ == RetryStateView::initial(started_at),
    {
        RetryState { attempt_number: 1, last_kind: None, started_at }
    }

    /// Number of the attempt that is due or under way; also the number of
    /// permits the request has needed so far.
    pub fn attempt_number(&self) -> (number: u64)
        ensures
            number == self@.attempt_number,
            number >= 1,
    {
        proof {
            use_type_invariant(self);
        }
        self.attempt_number
    }

    /// Kind of the failure that ended the attempt before.
    pub fn last_kind(&self) -> (kind: Option<ErrorKind>)
        ensures
            kind == self@.last_kind,
    {
        self.last_kind
    }

    /// The caller's clock reading when the request began.
    pub fn started_at(&self) -> (reading: u64)
        ensures
            reading == self@.started_at,
    {
        self.started_at
    }
}

/// What the caller does after an attempt.
#[derive(Debug)]
pub enum PipelineStep {
    /// Wait for `delay`, acquire a new permit, and attempt again with `state`.
    Retry { state: RetryState, delay: Delay },
    /// Return this result; the request is over.
    Finished(Result<String, Error>),
}

/// Mathematical value of a [`PipelineStep`].
pub enum PipelineStepView {
    Retry { state: RetryStateView, delay: Delay },
    Finished(Result<Seq<char>, ErrorView>),
}

impl View for PipelineStep {
    type V = PipelineStepView;

    open spec fn view(&self) -> PipelineStepView {
        match self {
            PipelineStep::Retry { state, delay } => PipelineStepView::Retry {
                state: state@,
                delay: *delay,
            },
            PipelineStep::Finished(Ok(payload)) => PipelineStepView::Finished(Ok(payload@)),
            PipelineStep::Finished(Err(error)) => PipelineStepView::Finished(Err(error@)),
        }
    }
}

/// The step that follows an attempt with the given outcome: a success and a
/// terminal failure end the request at once; a retryable failure ends it
/// unless the policy grants another attempt.
pub open spec fn step_after_outcome(
    policy: RetryPolicy,
    state: RetryStateView,
    outcome: AttemptOutcomeView,
) -> PipelineStepView {
    match outcome {
        AttemptOutcomeView::Success(payload) => PipelineStepView::Finished(Ok(payload)),
        AttemptOutcomeView::TerminalFailure(error) => PipelineStepView::Finished(Err(error)),
        AttemptOutcomeView::RetryableFailure { error, hint } => match policy.decision(
            state.attempt_number,
            error.kind(),
            hint,
        ) {
            RetryDecision::RetryAfter(delay) => PipelineStepView::Retry {
                state: state.after_failure(error.kind()),
                delay,
            },
            RetryDecision::GiveUp => PipelineStepView::Finished(Err(error)),
        },
    }
}

/// The step that follows an attempt that ended as `attempt` says.
pub open spec fn next_step(policy: RetryPolicy, state: RetryStateView, attempt: AttemptResultView)
    -> PipelineStepView {
    step_after_outcome(policy, state, classify_attempt(attempt))
}

/// How a request ends that begins in `state` and whose attempts end, in
/// order, as `attempts` says: the final result and the number of attempts
/// made, or `None` where the request is not over when `attempts` runs out.
pub open spec fn run(policy: RetryPolicy, state: RetryStateView, attempts: Seq<AttemptResultView>)
    -> Option<(Result<Seq<char>, ErrorView>, nat)>
    decreases attempts.len(),
{
    if attempts.len() == 0 {
        None
    } else {
        match next_step(policy, state, attempts[0]) {
            PipelineStepView::Finished(result) => Some((result, state.attempt_number)),
            PipelineStepView::Retry { state: next, .. } => run(policy, next, attempts.drop_first()),
        }
    }
}

/// The single point through which requests go out: the retry rules and the
/// rate limiter of one client.
pub struct RequestPipeline {
    policy: RetryPolicy,
    limiter: RateLimiter,
}

impl RequestPipeline {
    /// The retry rules of the pipeline.
    pub closed spec fn policy_view(&self) -> RetryPolicy {
        self.policy
    }

    /// A pipeline with the given retry rules and rate limiter.
    pub fn new(policy: RetryPolicy, limiter: RateLimiter) -> (pipeline: Self)
        ensures
            pipeline.policy_view() == policy,
            pipeline.limiter_quota() == limiter.quota_view(),
    {
        RequestPipeline { policy, limiter }
    }

    /// The retry rules of the pipeline.
    pub fn policy(&self) -> (policy: RetryPolicy)
        ensures
            policy == self.policy_view(),
    {
        self.policy
    }

    /// The rate limiter of the pipeline, which hands out the permit that
    /// each attempt needs.
    pub fn limiter(&self) -> (limiter: &RateLimiter)
        ensures
            limiter.quota_view() == self.limiter_quota(),
    {
        &self.limiter
    }

    /// The quota of the pipeline's rate limiter.
    pub closed spec fn limiter_quota(&self) -> crate::rate_limiter::QuotaView {
        self.limiter.quota_view()
    }

    /// Starts a logical request at the clock reading `started_at`.
    pub fn begin(&self, started_at: u64) -> (state: RetryState)
        ensures
            state@ == RetryStateView::initial(started_at),
    {
        RetryState::begin(started_at)
    }

    /// Takes in how the attempt made under `permit` ended and says what
    /// follows. The permit is used up whatever the answer.
    pub fn advance(&self, state: RetryState, permit: RateLimitPermit, attempt: AttemptResult) -> (step:
        PipelineStep)
        ensures
            step@ == next_step(self.policy_view(), state@, attempt@),
    {
        let _ = permit;
        after_outcome(&self.policy, state, classify(attempt))
    }
}

/// Says what follows an attempt with the given outcome.
pub fn after_outcome(policy: &RetryPolicy, state: RetryState, outcome: AttemptOutcome) -> (step:
    PipelineStep)
    ensures
        step@ == step_after_outcome(*policy, state@, outcome@),
{
    match outcome {
        AttemptOutcome::Success(payload) => PipelineStep::Finished(Ok(payload)),
        AttemptOutcome::TerminalFailure(error) => PipelineStep::Finished(Err(error)),
        AttemptOutcome::RetryableFailure { error, hint } => {
            let kind = error.kind();
            let number = state.attempt_number();
            match policy.decide(number, kind, hint) {
                RetryDecision::RetryAfter(delay) => {
                    // A retry is granted only below a bound that fits in 64 bits,
                    // so the next attempt number does, too.
                    PipelineStep::Retry {
                        state: RetryState {
                            attempt_number: number + 1,
                            last_kind: Some(kind),
                            started_at: state.started_at,
                        },
                        delay,
                    }
                },
                RetryDecision::GiveUp => PipelineStep::Finished(Err(error)),
            }
        },
    }
}

/// Whether the attempt ended without a response because it timed out.
pub open spec fn is_timeout(attempt: AttemptResultView) -> bool {
    attempt matches AttemptResultView::Failure(failure) && failure.timed_out
}

/// After a first attempt that succeeds the request is over: the payload is
/// returned and one attempt was made.
pub proof fn success_ends_request(
    policy: RetryPolicy,
    started_at: u64,
    attempts: Seq<AttemptResultView>,
)
    requires
        attempts.len() >= 1,
        attempts[0] matches AttemptResultView::Response(response) && response.status == 200
            && response.body is Text,
    ensures
        run(policy, RetryStateView::initial(started_at), attempts) == Some(
            (Ok::<Seq<char>, ErrorView>(attempts[0]->Response_0.body_text()), 1nat),
        ),
{
}

/// With `max_retries` retries enabled, a request whose every attempt times
/// out makes exactly `max_retries + 1` attempts and then returns the timeout
/// of the last one.
pub proof fn timeouts_use_every_attempt(
    max_retries: u32,
    started_at: u64,
    attempts: Seq<AttemptResultView>,
)
    requires
        attempts.len() >= max_retries + 1,
        forall|i: int| 0 <= i < attempts.len() ==> is_timeout(#[trigger] attempts[i]),
    ensures
        run(RetryPolicy::standard(true, max_retries), RetryStateView::initial(started_at), attempts)
            == Some(
            (
                Err::<Seq<char>, ErrorView>(
                    ErrorView::HttpError(attempts[max_retries as int]->Failure_0),
                ),
                (max_retries + 1) as nat,
            ),
        ),
        ErrorView::HttpError(attempts[max_retries as int]->Failure_0).kind() == ErrorKind::Timeout,
{
    timeouts_from(max_retries, RetryStateView::initial(started_at), attempts);
    assert(is_timeout(attempts[max_retries as int]));
}

/// The same, from any attempt on: with `attempts` still to come, all timing
/// out, the request ends with attempt number `max_retries + 1`.
proof fn timeouts_from(max_retries: u32, state: RetryStateView, attempts: Seq<AttemptResultView>)
    requires
        1 <= state.attempt_number <= max_retries + 1,
        attempts.len() >= max_retries + 2 - state.attempt_number,
        forall|i: int| 0 <= i < attempts.len() ==> is_timeout(#[trigger] attempts[i]),
    ensures
        run(RetryPolicy::standard(true, max_retries), state, attempts) == Some(
            (
                Err::<Seq<char>, ErrorView>(
                    ErrorView::HttpError(
                        attempts[max_retries + 1 - state.attempt_number]->Failure_0,
                    ),
                ),
                (max_retries + 1) as nat,
            ),
        ),
    decreases attempts.len(),
{
    let policy = RetryPolicy::standard(true, max_retries);
    assert(is_timeout(attempts[0]));
    let failure = attempts[0]->Failure_0;
    assert(ErrorView::HttpError(failure).kind() == ErrorKind::Timeout);
    if state.attempt_number == max_retries + 1 {
        assert(next_step(policy, state, attempts[0]) == PipelineStepView::Finished(
            Err(ErrorView::HttpError(failure)),
        ));
    } else {
        let next = state.after_failure(ErrorKind::Timeout);
        assert(next_step(policy, state, attempts[0]) matches PipelineStepView::Retry {
            state: following,
            ..
        } && following == next);
        let rest = attempts.drop_first();
        assert forall|i: int| 0 <= i < rest.len() implies is_timeout(#[trigger] rest[i]) by {
            assert(rest[i] == attempts[i + 1]);
        }
        timeouts_from(max_retries, next, rest);
        assert(rest[max_retries + 1 - next.attempt_number] == attempts[max_retries + 1
            - state.attempt_number]);
    }
}

/// A rate-limit answer is followed by another attempt after exactly the
/// delay that the server named (60 seconds where it named none), not after a
/// delay of a backoff track, as long as attempts are left.
pub proof fn rate_limit_follows_the_server(
    policy: RetryPolicy,
    state: RetryStateView,
    response: HttpResponseView,
)
    requires
        policy.enable_retries,
        state.attempt_number <= policy.max_retries,
        response.status == 429,
    ensures
        next_step(policy, state, AttemptResultView::Response(response))
            == (PipelineStepView::Retry {
            state: state.after_failure(ErrorKind::RateLimitExceeded),
            delay: Delay::Seconds(retry_after_seconds(response.retry_after)),
        }),
{
}

/// A response with status 401 is never retried: whatever the retry rules,
/// the request ends after that one attempt with `AuthenticationFailed`.
pub proof fn unauthorized_is_final(
    policy: RetryPolicy,
    started_at: u64,
    attempts: Seq<AttemptResultView>,
)
    requires
        attempts.len() >= 1,
        attempts[0] matches AttemptResultView::Response(response) && response.status == 401,
    ensures
        run(policy, RetryStateView::initial(started_at), attempts) == Some(
            (Err::<Seq<char>, ErrorView>(ErrorView::AuthenticationFailed), 1nat),
        ),
{
}

/// The error of an outcome that is a failure, retryable or not.
pub open spec fn failure_of(outcome: AttemptOutcomeView) -> Option<ErrorView> {
    match outcome {
        AttemptOutcomeView::Success(_) => None,
        AttemptOutcomeView::RetryableFailure { error, .. } => Some(error),
        AttemptOutcomeView::TerminalFailure(error) => Some(error),
    }
}

/// With retries switched off every failure is final: the request ends after
/// one attempt with the error of that attempt, retryable or not.
pub proof fn disabled_retries_end_at_once(
    policy: RetryPolicy,
    started_at: u64,
    attempts: Seq<AttemptResultView>,
)
    requires
        !policy.enable_retries,
        attempts.len() >= 1,
        failure_of(classify_attempt(attempts[0])) is Some,
    ensures
        run(policy, RetryStateView::initial(started_at), attempts) == Some(
            (
                Err::<Seq<char>, ErrorView>(failure_of(classify_attempt(attempts[0]))->0),
                1nat,
            ),
        ),
{
}

/// What an outcome gives the caller once it is final.
pub open spec fn result_of(outcome: AttemptOutcomeView) -> Result<Seq<char>, ErrorView> {
    match outcome {
        AttemptOutcomeView::Success(payload) => Ok(payload),
        AttemptOutcomeView::RetryableFailure { error, .. } => Err(error),
        AttemptOutcomeView::TerminalFailure(error) => Err(error),
    }
}

/// The result of a request is that of its last attempt: a request that used
/// up its attempts returns the failure seen last, not a failure seen before
/// and not an error of its own.
pub proof fn result_is_of_the_last_attempt(
    policy: RetryPolicy,
    state: RetryStateView,
    attempts: Seq<AttemptResultView>,
)
    ensures
        run(policy, state, attempts) matches Some((result, made)) ==> {
            &&& state.attempt_number <= made < state.attempt_number + attempts.len()
            &&& result == result_of(classify_attempt(attempts[made - state.attempt_number]))
        },
    decreases attempts.len(),
{
    if attempts.len() > 0 {
        match next_step(policy, state, attempts[0]) {
            PipelineStepView::Finished(_) => {},
            PipelineStepView::Retry { state: next, .. } => {
                let rest = attempts.drop_first();
                result_is_of_the_last_attempt(policy, next, rest);
                match run(policy, next, rest) {
                    Some((_, made)) => {
                        assert(rest[made - next.attempt_number] == attempts[made
                            - state.attempt_number]);
                    },
                    None => {},
                }
            },
        }
    }
}

impl RetryPolicy {
    /// The most attempts that any kind of failure is given.
    pub open spec fn largest_budget(self) -> nat {
        let tracks = if self.timeout.max_attempts >= self.network.max_attempts {
            self.timeout.max_attempts as nat
        } else {
            self.network.max_attempts as nat
        };
        if tracks >= self.max_retries + 1 {
            tracks
        } else {
            (self.max_retries + 1) as nat
        }
    }
}

/// A request that is over has made at least the attempt it began with and no
/// more attempts than the largest budget of its retry rules allows. Each
/// attempt needs one permit, so the same bounds hold for the permits used.
pub proof fn attempts_are_bounded(
    policy: RetryPolicy,
    state: RetryStateView,
    attempts: Seq<AttemptResultView>,
)
    requires
        state.attempt_number >= 1,
    ensures
        run(policy, state, attempts) matches Some((_, made)) ==> state.attempt_number <= made && (
        made == state.attempt_number || made <= policy.largest_budget()),
    decreases attempts.len(),
{
    if attempts.len() > 0 {
        match next_step(policy, state, attempts[0]) {
            PipelineStepView::Finished(_) => {},
            PipelineStepView::Retry { state: next, .. } => {
                attempts_are_bounded(policy, next, attempts.drop_first());
            },
        }
    }
}

} // verus!
