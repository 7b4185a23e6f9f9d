//! One step of a fetch: what to do with what a try came back with.

use super::error::{http_error_text, HttpError, HttpErrorView};
use super::read::{header_view, RetryRead, RetryReadView};
use super::retry::{grown_wait, RetryState};
use super::settings::ClientSettings;
use super::status::{parse_response, response_case, HttpResult};
use crate::text::{decimal, push_decimal};
use crate::transport::{TransportError, TransportErrorKind, TransportErrorView};
use vstd::prelude::*;
use vstd::string::*;

verus! {

/// What one try for a response came back with.
#[derive(Debug)]
pub enum Attempt {
    /// The request could not be made.
    NotBuilt { cause: String },
    /// The try failed before the status of a response could be read.
    NoResponse { cause: String },
    /// A response arrived, with this status and this `Accept-Ranges`
    /// header, if it has one.
    Response { status: u16, accept_ranges: Option<Vec<u8>> },
}

/// The mathematical content of an [`Attempt`].
pub enum AttemptView {
    NotBuilt { cause: Seq<char> },
    NoResponse { cause: Seq<char> },
    Response { status: u16, accept_ranges: Option<Seq<u8>> },
}

impl View for Attempt {
    type V = AttemptView;

    open spec fn view(&self) -> AttemptView {
        match self {
            Attempt::NotBuilt { cause } => AttemptView::NotBuilt { cause: cause@ },
            Attempt::NoResponse { cause } => AttemptView::NoResponse { cause: cause@ },
            Attempt::Response { status, accept_ranges } => AttemptView::Response {
                status: *status,
                accept_ranges: header_view(*accept_ranges),
            },
        }
    }
}

/// What to do after one try for a response.
#[derive(Debug)]
pub enum FetchStep {
    /// The response is the one to read from.
    Ready(RetryRead),
    /// The fetch has failed with this error.
    Failed(TransportError),
    /// Pause for `wait` milliseconds, then try again from the retry state
    /// as it now is.
    Retry { wait: u64 },
}

/// The mathematical content of a [`FetchStep`].
pub enum FetchStepView {
    Ready(RetryReadView),
    Failed(TransportErrorView),
    Retry { wait: u64 },
}

impl View for FetchStep {
    type V = FetchStepView;

    open spec fn view(&self) -> FetchStepView {
        match self {
            FetchStep::Ready(read) => FetchStepView::Ready(read@),
            FetchStep::Failed(error) => FetchStepView::Failed(error@),
            FetchStep::Retry { wait } => FetchStepView::Retry { wait: *wait },
        }
    }
}

/// How a status that is an error is described.
pub open spec fn status_text(status: u16) -> Seq<char> {
    "HTTP status "@ + decimal(status as nat)
}

/// Which case a try falls under.
pub open spec fn attempt_case(attempt: AttemptView) -> HttpResult {
    match attempt {
        AttemptView::NotBuilt { .. } => HttpResult::Fatal,
        AttemptView::NoResponse { .. } => HttpResult::Retryable,
        AttemptView::Response { status, .. } => response_case(status),
    }
}

/// How the error of a try that did not succeed is described.
pub open spec fn attempt_cause(attempt: AttemptView) -> Seq<char> {
    match attempt {
        AttemptView::NotBuilt { cause } => http_error_text(
            HttpErrorView::RequestBuild { source: cause },
        ),
        AttemptView::NoResponse { cause } => cause,
        AttemptView::Response { status, .. } => status_text(status),
    }
}

/// What a try that came back with `attempt` leads to, and the retry state
/// that it leaves.
///
/// Success hands over the response. A missing file and a fatal error end
/// the fetch at once. After a retryable error the fetch ends in failure if
/// this was the last try; otherwise the try is counted and the fetch
/// pauses before the next one.
pub open spec fn fetch_step(
    r: RetryState,
    cs: ClientSettings,
    url: Seq<char>,
    attempt: AttemptView,
) -> (RetryState, FetchStepView) {
    let cause = attempt_cause(attempt);
    match attempt_case(attempt) {
        HttpResult::Success => (
            r,
            FetchStepView::Ready(
                RetryReadView {
                    retry_state: r,
                    settings: cs,
                    accept_ranges: attempt->accept_ranges,
                    url,
                },
            ),
        ),
        HttpResult::Fatal => (
            r,
            FetchStepView::Failed(
                TransportErrorView { kind: TransportErrorKind::Failure, url, source: cause },
            ),
        ),
        HttpResult::FileNotFound => (
            r,
            FetchStepView::Failed(
                TransportErrorView { kind: TransportErrorKind::FileNotFound, url, source: cause },
            ),
        ),
        HttpResult::Retryable => if r.out_of_tries(cs) {
            (
                r,
                FetchStepView::Failed(
                    TransportErrorView { kind: TransportErrorKind::Failure, url, source: cause },
                ),
            )
        } else {
            (r.incremented(cs), FetchStepView::Retry { wait: r.incremented(cs).wait })
        },
    }
}

/// Sorts what a try came back with: a try without a response is tried
/// again, a request that could not be made is final, and a response goes by
/// its status.
pub fn sort_attempt(attempt: &Attempt) -> (r: HttpResult)
    ensures
        r == attempt_case(attempt@),
{
    match attempt {
        Attempt::NotBuilt { .. } => HttpResult::Fatal,
        // The error came before a status could be read.
        Attempt::NoResponse { .. } => HttpResult::Retryable,
        Attempt::Response { status, .. } => parse_response(*status),
    }
}

/// Describes the error of a try.
fn describe_attempt(attempt: &Attempt) -> (r: String)
    ensures
        r@ == attempt_cause(attempt@),
{
    match attempt {
        Attempt::NotBuilt { cause } => {
            let error = HttpError::RequestBuild { source: cause.clone() };
            error.message()
        },
        Attempt::NoResponse { cause } => cause.clone(),
        Attempt::Response { status, .. } => {
            let mut text = String::from_str("HTTP status ");
            push_decimal(&mut text, *status as u64);
            text
        },
    }
}

/// Decides what follows one try of a `GET` request for `url`, counting the
/// try in `r` where another one follows.
pub fn fetch_with_retries(
    r: &mut RetryState,
    cs: &ClientSettings,
    url: &str,
    attempt: Attempt,
) -> (step: FetchStep)
    ensures
        (*final(r), step@) == fetch_step(*old(r), *cs, url@, attempt@),
{
    match sort_attempt(&attempt) {
        HttpResult::Success => {
            let accept_ranges = match attempt {
                Attempt::Response { accept_ranges, .. } => accept_ranges,
                _ => None,
            };
            FetchStep::Ready(
                RetryRead { retry_state: *r, settings: *cs, accept_ranges, url: url.to_owned() },
            )
        },
        HttpResult::Fatal => {
            let cause = describe_attempt(&attempt);
            FetchStep::Failed(
                TransportError::new(TransportErrorKind::Failure, url, cause.as_str()),
            )
        },
        HttpResult::FileNotFound => {
            let cause = describe_attempt(&attempt);
            FetchStep::Failed(
                TransportError::new(TransportErrorKind::FileNotFound, url, cause.as_str()),
            )
        },
        HttpResult::Retryable => {
            if r.is_out_of_tries(cs) {
                // No try is left: the last error is the answer.
                let cause = describe_attempt(&attempt);
                FetchStep::Failed(
                    TransportError::new(TransportErrorKind::Failure, url, cause.as_str()),
                )
            } else {
                r.increment(cs);
                FetchStep::Retry { wait: r.wait }
            }
        },
    }
}

/// The pause before try `k` of a fetch that has failed `k` times: the
/// initial backoff before the second try, growing by the backoff factor
/// from then on and held at the longest pause.
pub open spec fn backoff(cs: ClientSettings, k: nat) -> u64
    decreases k,
{
    if k <= 1 {
        cs.initial_backoff
    } else {
        grown_wait(backoff(cs, (k - 1) as nat), cs)
    }
}

/// The retry state of a fetch whose first `k` tries have all failed with a
/// retryable error.
pub open spec fn state_after_failures(cs: ClientSettings, k: nat) -> RetryState
    decreases k,
{
    if k == 0 {
        RetryState::spec_new(cs.initial_backoff)
    } else {
        state_after_failures(cs, (k - 1) as nat).incremented(cs)
    }
}

/// With `tries` tries, a fetch whose tries all fail with a retryable error
/// pauses `backoff(1)`, `backoff(2)`, and so on between them, and after
/// the last try it fails with the error of that try: there are never more
/// tries than `tries`, and never more than one where `tries` is zero.
pub proof fn lemma_failing_tries_follow_the_schedule(
    cs: ClientSettings,
    url: Seq<char>,
    k: nat,
    attempt: AttemptView,
)
    requires
        attempt_case(attempt) == HttpResult::Retryable,
        k < cs.tries || k == 0,
    ensures
        ({
            let r = state_after_failures(cs, k);
            let (after, step) = fetch_step(r, cs, url, attempt);
            &&& r.current_try == k
            &&& r.wait == backoff(cs, k)
            &&& r.next_byte == 0
            &&& k + 1 < cs.tries ==> {
                &&& after == state_after_failures(cs, k + 1)
                &&& step == (FetchStepView::Retry { wait: backoff(cs, k + 1) })
            }
            &&& k + 1 >= cs.tries ==> {
                &&& after == r
                &&& step == FetchStepView::Failed(
                    TransportErrorView {
                        kind: TransportErrorKind::Failure,
                        url,
                        source: attempt_cause(attempt),
                    },
                )
            }
        }),
    decreases k,
{
    if k > 0 {
        lemma_failing_tries_follow_the_schedule(cs, url, (k - 1) as nat, attempt);
    }
}

/// From the second pause on, no pause is longer than the longest pause of
/// the settings. Where the factor is at least one and the first pause is
/// no longer than the longest, the pauses never shrink.
pub proof fn lemma_backoff_is_capped(cs: ClientSettings, k: nat)
    ensures
        k >= 2 ==> backoff(cs, k) <= cs.max_backoff,
        cs.backoff_factor >= 1000 && cs.initial_backoff <= cs.max_backoff ==> backoff(cs, k)
            <= backoff(cs, k + 1) <= cs.max_backoff,
    decreases k,
{
    if k >= 1 {
        lemma_backoff_is_capped(cs, (k - 1) as nat);
    }
    if cs.backoff_factor >= 1000 && cs.initial_backoff <= cs.max_backoff {
        let wait = backoff(cs, k);
        assert(wait as int * cs.backoff_factor as int >= wait as int * 1000) by (nonlinear_arith)
            requires
                cs.backoff_factor >= 1000,
                wait >= 0,
        ;
    }
}

} // verus!
