use vstd::prelude::*;
use vstd::string::StringExecFns;
use crate::error::Error;
use crate::error::spec_is_transient;
use crate::models::ApiErrorResponse;
use crate::models::CreatePaymentRequest;

verus! {

broadcast use vstd::string::group_string_axioms;

/// The request methods the client issues.
#[derive(Clone, Copy, PartialEq, Eq, Structural, Debug)]
pub enum HttpMethod {
    Get,
    Post,
}

/// The body of a planned request. A payment body is carried as the typed
/// request value; the embedding program serializes it to JSON unchanged.
#[derive(Debug)]
pub enum PlanBody {
    Empty,
    Form(String),
    PaymentJson(CreatePaymentRequest),
}

/// One logical HTTP request, fully specified: method, URL, headers and body.
/// A plan is what the engine re-issues across attempts; it holds plain
/// values only, so it can be cloned and sent by any transport.
#[derive(Debug)]
pub struct RequestPlan {
    pub method: HttpMethod,
    pub url: String,
    pub headers: Vec<(String, String)>,
    pub body: PlanBody,
}

/// Parameters of an exponential backoff schedule: a first waiting interval,
/// a cap each interval is clipped to, and a total elapsed-time budget after
/// which no further attempt is made.
#[derive(Clone, Copy, PartialEq, Eq, Structural, Debug)]
pub struct BackoffPolicy {
    pub initial_interval_ms: u64,
    pub max_interval_ms: u64,
    pub max_elapsed_ms: u64,
}

/// The schedule the engine uses: first interval 100 ms, doubling, capped at
/// 10 s per interval, inside a 30 s total elapsed budget.
pub open spec fn spec_default_policy() -> BackoffPolicy {
    BackoffPolicy { initial_interval_ms: 100, max_interval_ms: 10000, max_elapsed_ms: 30000 }
}

impl BackoffPolicy {
    /// A policy is well formed when its first interval is positive, no larger
    /// than the cap, and doubling the cap cannot overflow.
    pub open spec fn wf(&self) -> bool {
        0 < self.initial_interval_ms <= self.max_interval_ms && self.max_interval_ms <= u64::MAX
            / 2
    }
}

/// The request-execution engine. It holds no mutable state across calls:
/// the backoff policy is a fixed template, and each logical request is
/// retried by walking a fresh [`RetryState`] through
/// [`HttpClient::on_attempt_failure`].
#[derive(Debug)]
pub struct HttpClient {
    pub policy: BackoffPolicy,
}

impl Default for HttpClient {
    /// An engine with the default schedule.
    fn default() -> (r: Self)
        ensures
            r.policy == spec_default_policy(),
            r.policy.wf(),
    {
        HttpClient {
            policy: BackoffPolicy {
                initial_interval_ms: 100,
                max_interval_ms: 10000,
                max_elapsed_ms: 30000,
            },
        }
    }
}

/// The retry position of one logical request: the interval the next wait
/// would use.
#[derive(Clone, Copy, PartialEq, Eq, Structural, Debug)]
pub struct RetryState {
    pub next_interval_ms: u64,
}

impl RetryState {
    /// A state reachable under `p`: an interval between the first interval
    /// and the cap (the schedule only ever grows an interval).
    pub open spec fn wf(&self, p: BackoffPolicy) -> bool {
        p.initial_interval_ms <= self.next_interval_ms <= p.max_interval_ms
    }
}

/// What to do after a failed attempt: wait and try again, or stop and
/// surface the error.
#[derive(Debug)]
pub enum RetryDecision {
    RetryAfter { delay_ms: u64, next: RetryState },
    GiveUp { error: Error },
}

/// The interval that follows `cur` in the schedule: doubled, clipped to the
/// cap.
pub open spec fn spec_next_interval(p: BackoffPolicy, cur: u64) -> u64 {
    if cur * 2 <= p.max_interval_ms {
        (cur * 2) as u64
    } else {
        p.max_interval_ms
    }
}

/// The decision the engine owes after a failed attempt: a transient failure
/// within the elapsed budget is retried after the current interval, with the
/// interval advanced along the schedule; anything else ends the loop with
/// that same error, unchanged and unwrapped.
pub open spec fn spec_retry_decision(
    p: BackoffPolicy,
    st: RetryState,
    e: Error,
    elapsed_ms: u64,
) -> RetryDecision {
    if spec_is_transient(&e) && elapsed_ms <= p.max_elapsed_ms {
        RetryDecision::RetryAfter {
            delay_ms: st.next_interval_ms,
            next: RetryState { next_interval_ms: spec_next_interval(p, st.next_interval_ms) },
        }
    } else {
        RetryDecision::GiveUp { error: e }
    }
}

impl HttpClient {
    /// The retry position a logical request starts from.
    pub fn initial_state(&self) -> (st: RetryState)
        ensures
            st.next_interval_ms == self.policy.initial_interval_ms,
            self.policy.wf() ==> st.wf(self.policy),
    {
        RetryState { next_interval_ms: self.policy.initial_interval_ms }
    }

    /// Decides the fate of a failed attempt. `elapsed_ms` is the time spent
    /// on this logical request so far, as measured by the caller driving the
    /// loop.
    pub fn on_attempt_failure(&self, st: &RetryState, e: Error, elapsed_ms: u64) -> (d:
        RetryDecision)
        requires
            self.policy.wf(),
            st.wf(self.policy),
        ensures
            d == spec_retry_decision(self.policy, *st, e, elapsed_ms),
            d matches RetryDecision::RetryAfter { delay_ms, next } ==> delay_ms > 0 && next.wf(
                self.policy,
            ),
    {
        let transient = e.is_transient();
        if transient && elapsed_ms <= self.policy.max_elapsed_ms {
            let doubled = st.next_interval_ms * 2;
            let next_interval = if doubled <= self.policy.max_interval_ms {
                doubled
            } else {
                self.policy.max_interval_ms
            };
            RetryDecision::RetryAfter {
                delay_ms: st.next_interval_ms,
                next: RetryState { next_interval_ms: next_interval },
            }
        } else {
            RetryDecision::GiveUp { error: e }
        }
    }
}

/// Until the cap is reached the waiting intervals strictly increase (each is
/// double the one before), and they never exceed the cap.
pub proof fn lemma_intervals_increase(p: BackoffPolicy, cur: u64)
    requires
        p.wf(),
        0 < cur <= p.max_interval_ms,
    ensures
        cur < p.max_interval_ms ==> spec_next_interval(p, cur) > cur,
        cur * 2 <= p.max_interval_ms ==> spec_next_interval(p, cur) == cur * 2,
        cur <= spec_next_interval(p, cur) <= p.max_interval_ms,
{
}

/// The engine never hangs: once the elapsed budget is exceeded, the decision
/// on any failure whatsoever is to stop, surfacing that last error unchanged.
pub proof fn lemma_budget_stops(p: BackoffPolicy, st: RetryState, e: Error, elapsed_ms: u64)
    requires
        elapsed_ms > p.max_elapsed_ms,
    ensures
        spec_retry_decision(p, st, e, elapsed_ms) == (RetryDecision::GiveUp { error: e }),
{
}

/// A permanent failure is never retried, however much budget is left.
pub proof fn lemma_permanent_stops(p: BackoffPolicy, st: RetryState, e: Error, elapsed_ms: u64)
    requires
        !spec_is_transient(&e),
    ensures
        spec_retry_decision(p, st, e, elapsed_ms) == (RetryDecision::GiveUp { error: e }),
{
}

/// A run of the engine on one logical request that retries at every step:
/// before attempt `i` the retry position is `states[i]` and the measured
/// elapsed time is `elapsed[i]`; attempt `i` fails with `errors[i]`, the
/// engine's decision is to retry into `states[i + 1]`, and the driver waits
/// at least the directed delay before the next attempt, so at least that
/// much elapsed time passes.
pub open spec fn spec_retry_run(
    p: BackoffPolicy,
    errors: Seq<Error>,
    states: Seq<RetryState>,
    elapsed: Seq<u64>,
) -> bool {
    &&& states.len() == elapsed.len()
    &&& errors.len() + 1 == states.len()
    &&& forall|i: int|
        0 <= i < errors.len() ==> {
            &&& #[trigger] spec_retry_decision(p, states[i], errors[i], elapsed[i])
                == (RetryDecision::RetryAfter {
                delay_ms: states[i].next_interval_ms,
                next: states[i + 1],
            })
            &&& elapsed[i + 1] >= elapsed[i] + states[i].next_interval_ms
        }
}

proof fn lemma_run_wf_and_growth(
    p: BackoffPolicy,
    errors: Seq<Error>,
    states: Seq<RetryState>,
    elapsed: Seq<u64>,
    i: int,
)
    requires
        p.wf(),
        states.len() > 0,
        states[0].wf(p),
        spec_retry_run(p, errors, states, elapsed),
        0 <= i < states.len(),
    ensures
        states[i].wf(p),
        elapsed[i] >= elapsed[0] + i * p.initial_interval_ms,
    decreases i,
{
    if i > 0 {
        lemma_run_wf_and_growth(p, errors, states, elapsed, i - 1);
        assert(spec_retry_decision(p, states[i - 1], errors[i - 1], elapsed[i - 1])
            == (RetryDecision::RetryAfter {
            delay_ms: states[i - 1].next_interval_ms,
            next: states[i],
        }));
        assert(states[i].wf(p)) by {
            lemma_intervals_increase(p, states[i - 1].next_interval_ms);
        }
        assert((i - 1) * p.initial_interval_ms + p.initial_interval_ms == i
            * p.initial_interval_ms) by (nonlinear_arith);
    }
}

/// The retry loop never hangs: along any driven run — each wait adds at least
/// its directed delay to the measured elapsed time — every delay is at least
/// the initial interval, so no more retries fit than the elapsed budget
/// divided by the initial interval, plus the one decision taken at the
/// budget's edge.
pub proof fn lemma_retry_run_bounded(
    p: BackoffPolicy,
    errors: Seq<Error>,
    states: Seq<RetryState>,
    elapsed: Seq<u64>,
)
    requires
        p.wf(),
        states.len() > 0,
        states[0].wf(p),
        elapsed[0] == 0,
        spec_retry_run(p, errors, states, elapsed),
    ensures
        errors.len() <= p.max_elapsed_ms / p.initial_interval_ms + 1,
{
    let n = errors.len() as int;
    if n > 0 {
        lemma_run_wf_and_growth(p, errors, states, elapsed, n - 1);
        // The last decision was still a retry, so its elapsed time was
        // within the budget.
        assert(spec_retry_decision(p, states[n - 1], errors[n - 1], elapsed[n - 1])
            == (RetryDecision::RetryAfter {
            delay_ms: states[n - 1].next_interval_ms,
            next: states[n],
        }));
        assert(elapsed[n - 1] <= p.max_elapsed_ms);
        assert((n - 1) * p.initial_interval_ms <= p.max_elapsed_ms);
        assert(n - 1 <= p.max_elapsed_ms / p.initial_interval_ms) by (nonlinear_arith)
            requires
                (n - 1) * p.initial_interval_ms <= p.max_elapsed_ms,
                p.initial_interval_ms > 0,
        ;
    }
}

/// A structured remote failure — the synthesized 401 error among them — is
/// permanent: the engine answering one never schedules another attempt.
pub proof fn lemma_api_error_never_retried(
    p: BackoffPolicy,
    st: RetryState,
    e: Error,
    elapsed_ms: u64,
)
    requires
        e matches Error::ApiError { .. },
    ensures
        spec_retry_decision(p, st, e, elapsed_ms) == (RetryDecision::GiveUp { error: e }),
{
}

/// How the engine reads an HTTP status: a 2xx is success, a 401 is the one
/// specially handled failure, everything else is a generic failure.
#[derive(Clone, Copy, PartialEq, Eq, Structural, Debug)]
pub enum ResponseClass {
    Success,
    Unauthorized,
    Failure,
}

/// The class of a status code.
pub open spec fn spec_classify_status(status: u16) -> ResponseClass {
    if 200 <= status < 300 {
        ResponseClass::Success
    } else if status == 401 {
        ResponseClass::Unauthorized
    } else {
        ResponseClass::Failure
    }
}

/// Maps a status code to its class.
pub fn classify_status(status: u16) -> (c: ResponseClass)
    ensures
        c == spec_classify_status(status),
{
    if 200 <= status && status < 300 {
        ResponseClass::Success
    } else if status == 401 {
        ResponseClass::Unauthorized
    } else {
        ResponseClass::Failure
    }
}

/// The error synthesized for a 401 response, with no body ever read.
pub open spec fn spec_is_unauthorized_error(e: Error) -> bool {
    match e {
        Error::ApiError { status_code, code, message, trace_id } => {
            &&& status_code == 401
            &&& code@ == "UNAUTHORIZED"@
            &&& message@ == "Invalid or expired token"@
            &&& trace_id is None
        },
        _ => false,
    }
}

/// The error owed for a non-2xx, non-401 response whose body parsed as
/// `parsed` (`None` when it could not be parsed): the first entry of the
/// body's error list supplies code and detail, with the documented fallbacks.
pub open spec fn spec_error_from_body(status: u16, parsed: Option<ApiErrorResponse>, e: Error) -> bool {
    match e {
        Error::ApiError { status_code, code, message, trace_id } => {
            &&& status_code == status
            &&& match parsed {
                None => {
                    &&& code@ == "UNKNOWN_ERROR"@
                    &&& message@ == "Failed to parse error response"@
                    &&& trace_id is None
                },
                Some(body) => {
                    &&& code@ == (if body.errors@.len() > 0 {
                        body.errors@[0].code@
                    } else {
                        "UNKNOWN_ERROR"@
                    })
                    &&& message@ == (if body.errors@.len() > 0 && body.errors@[0].detail@.len()
                        > 0 {
                        body.errors@[0].detail@
                    } else {
                        "API error occurred with code: "@ + (if body.errors@.len() > 0 {
                            body.errors@[0].code@
                        } else {
                            "UNKNOWN_ERROR"@
                        })
                    })
                    &&& trace_id matches Some(t) && t@ == body.trace_id@
                },
            }
        },
        _ => false,
    }
}

/// Builds the structured error for a non-2xx, non-401 response from its
/// status and its body as far as it parsed.
pub fn handle_error_response(status: u16, parsed: Option<ApiErrorResponse>) -> (e: Error)
    ensures
        spec_error_from_body(status, parsed, e),
{
    match parsed {
        None => Error::ApiError {
            status_code: status,
            code: "UNKNOWN_ERROR".to_owned(),
            message: "Failed to parse error response".to_owned(),
            trace_id: None,
        },
        Some(body) => {
            let code: String = if body.errors.len() > 0 {
                body.errors[0].code.clone()
            } else {
                "UNKNOWN_ERROR".to_owned()
            };
            let has_detail = body.errors.len() > 0 && !body.errors[0].detail.as_str().is_empty();
            let message: String = if has_detail {
                body.errors[0].detail.clone()
            } else {
                let mut m: String = "API error occurred with code: ".to_owned();
                m.append(code.as_str());
                m
            };
            Error::ApiError {
                status_code: status,
                code,
                message,
                trace_id: Some(body.trace_id),
            }
        },
    }
}

/// Reads one attempt's response for the engine: a 2xx passes the response
/// through untouched (`None`), a 401 yields the synthesized unauthorized
/// error with the body left unread, and any other status yields the
/// structured error built from the body.
pub fn check_response(status: u16, parsed: Option<ApiErrorResponse>) -> (r: Option<Error>)
    ensures
        r is None <==> spec_classify_status(status) == ResponseClass::Success,
        spec_classify_status(status) == ResponseClass::Unauthorized ==> (r matches Some(e)
            && spec_is_unauthorized_error(e)),
        spec_classify_status(status) == ResponseClass::Failure ==> (r matches Some(e)
            && spec_error_from_body(status, parsed, e)),
{
    match classify_status(status) {
        ResponseClass::Success => None,
        ResponseClass::Unauthorized => Some(
            Error::ApiError {
                status_code: 401,
                code: "UNAUTHORIZED".to_owned(),
                message: "Invalid or expired token".to_owned(),
                trace_id: None,
            },
        ),
        ResponseClass::Failure => Some(handle_error_response(status, parsed)),
    }
}

} // verus!
