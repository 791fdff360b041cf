//! Classification and retry decisions of the resilient request executor.
//!
//! One request to the generation backend may take several transport attempts.
//! Each attempt is summarised by the caller as an [`AttemptReport`]: either the
//! transport itself failed, or a response with a status code came back, with
//! the backend's structured error body parsed out of it when the status was
//! not a success. [`classify_attempt`] turns one report into a three-way
//! verdict (success, transient failure worth retrying, permanent failure), and
//! [`drive_retries`] folds a whole sequence of reports under an exponential
//! backoff budget into the outcome the caller sees. Both are pure: the
//! transport, the timer and the JSON parsing stay with the caller.

use vstd::prelude::*;

verus! {

/// The backend's structured error body, reduced to the fields the
/// classification reads: a human-readable message and the error's type tag.
#[derive(Debug, PartialEq, Eq)]
pub struct ApiErrorBody {
    pub message: String,
    pub error_type: Option<String>,
}

/// A classified failure of one backend request.
#[derive(Debug, PartialEq, Eq)]
pub enum ExecError {
    /// The transport itself failed (connection, name resolution, TLS).
    Transport(String),
    /// The backend answered with a structured error.
    Api(ApiErrorBody),
    /// The response bytes did not match the expected shape; the payload is
    /// the parser's own message.
    Deserialize(String),
}

/// What one transport attempt observed, as reported by the caller.
#[derive(Debug, PartialEq, Eq)]
pub enum AttemptReport {
    /// The request never produced a response.
    TransportFailed(String),
    /// A response came back with this status code. `error_body` is the parse
    /// of the response bytes as the backend's structured error; it is
    /// consulted only when the status is not a success.
    Completed { status: u16, error_body: Result<ApiErrorBody, String> },
}

/// The three-way verdict on one attempt.
#[derive(Debug, PartialEq, Eq)]
pub enum Classification {
    /// A success status: the response bytes are the answer.
    Success,
    /// A failure that another attempt may clear.
    Transient(ApiErrorBody),
    /// A failure that no retry can clear.
    Permanent(ExecError),
}

/// How a whole retried request ended.
#[derive(Debug, PartialEq, Eq)]
pub enum RetryOutcome {
    /// Some attempt succeeded; `attempts` counts every attempt made,
    /// the successful one included.
    Delivered { attempts: usize },
    /// No attempt succeeded within the budget; `error` is the failure of the
    /// last attempt made.
    GaveUp { attempts: usize, error: ExecError },
}

/// A status code that counts as a success.
pub open spec fn spec_is_success_status(status: u16) -> bool {
    200 <= status < 300
}

/// The status code the backend uses for rate limiting.
pub const RATE_LIMITED_STATUS: u16 = 429;

/// An error body that reports a hard quota exhaustion rather than a
/// momentary rate limit.
pub open spec fn spec_is_quota_exhausted(body: ApiErrorBody) -> bool {
    match body.error_type {
        Some(t) => t@ == "insufficient_quota"@,
        None => false,
    }
}

/// The classification rule: a transport failure is permanent; a success
/// status is a success; a rate-limited status whose body does not report
/// quota exhaustion is transient; every other response is permanent, an
/// unparseable error body counting as a deserialization failure.
pub open spec fn spec_classify(report: AttemptReport) -> Classification {
    match report {
        AttemptReport::TransportFailed(msg) => Classification::Permanent(
            ExecError::Transport(msg),
        ),
        AttemptReport::Completed { status, error_body } => if spec_is_success_status(status) {
            Classification::Success
        } else {
            match error_body {
                Ok(body) => if status == RATE_LIMITED_STATUS && !spec_is_quota_exhausted(body) {
                    Classification::Transient(body)
                } else {
                    Classification::Permanent(ExecError::Api(body))
                },
                Err(msg) => Classification::Permanent(ExecError::Deserialize(msg)),
            }
        },
    }
}

/// Classifies one attempt. Pure: the decision function behind the retry loop.
pub fn classify_attempt(report: AttemptReport) -> (c: Classification)
    ensures
        c == spec_classify(report),
{
    match report {
        AttemptReport::TransportFailed(msg) => Classification::Permanent(
            ExecError::Transport(msg),
        ),
        AttemptReport::Completed { status, error_body } => {
            if 200 <= status && status < 300 {
                Classification::Success
            } else {
                match error_body {
                    Ok(body) => {
                        let exhausted: bool = match &body.error_type {
                            Some(t) => {
                                let quota = "insufficient_quota".to_owned();
                                *t == quota
                            },
                            None => false,
                        };
                        if status == RATE_LIMITED_STATUS && !exhausted {
                            Classification::Transient(body)
                        } else {
                            Classification::Permanent(ExecError::Api(body))
                        }
                    },
                    Err(msg) => Classification::Permanent(ExecError::Deserialize(msg)),
                }
            }
        },
    }
}

/// Whether, after a transient failure on attempt `i` (0-based) with `elapsed`
/// milliseconds of delay already spent, the backoff allows attempt `i + 1`:
/// another report must exist, a backoff delay must be scheduled for this
/// retry, and waiting it out must stay within the elapsed-time budget.
pub open spec fn spec_retry_allowed(
    delays: Seq<u64>,
    budget: int,
    i: int,
    elapsed: int,
    n_reports: int,
) -> bool {
    &&& i + 1 < n_reports
    &&& i < delays.len()
    &&& elapsed + delays[i] <= budget
}

/// The outcome of running attempts `i, i + 1, ...` of `reports` under the
/// backoff schedule `delays` and the elapsed-time budget `budget`, with
/// `elapsed` milliseconds already spent on earlier delays. Retrying stops at
/// the first success, at the first permanent failure, and at a transient
/// failure that the budget or the schedule refuses another attempt after.
pub open spec fn spec_drive(
    reports: Seq<AttemptReport>,
    delays: Seq<u64>,
    budget: int,
    i: int,
    elapsed: int,
) -> RetryOutcome
    decreases reports.len() - i,
    when 0 <= i < reports.len()
{
    match spec_classify(reports[i]) {
        Classification::Success => (RetryOutcome::Delivered { attempts: (i + 1) as usize }),
        Classification::Permanent(e) => (RetryOutcome::GaveUp {
            attempts: (i + 1) as usize,
            error: e,
        }),
        Classification::Transient(b) => if spec_retry_allowed(
            delays,
            budget,
            i,
            elapsed,
            reports.len() as int,
        ) {
            spec_drive(reports, delays, budget, i + 1, elapsed + delays[i])
        } else {
            RetryOutcome::GaveUp { attempts: (i + 1) as usize, error: ExecError::Api(b) }
        },
    }
}

/// Folds the attempts of one retried request into its outcome.
///
/// `reports` holds what successive transport attempts observed, in order;
/// `delays` is the backoff schedule (the wait before each retry); and
/// `max_elapsed_ms` bounds the total time spent waiting. The transport calls,
/// the parsing of error bodies and the actual sleeping stay with the caller,
/// who gathers the reports; this function makes every retry decision and is
/// verified against [`spec_drive`].
#[verifier::loop_isolation(false)]
pub fn drive_retries(mut reports: Vec<AttemptReport>, delays: &Vec<u64>, max_elapsed_ms: u64) -> (r:
    RetryOutcome)
    requires
        reports@.len() > 0,
    ensures
        r == spec_drive(reports@, delays@, max_elapsed_ms as int, 0, 0),
{
    let ghost all: Seq<AttemptReport> = reports@;
    let n: usize = reports.len();
    assert(all.len() == n);
    let mut i: usize = 0;
    let mut elapsed: u64 = 0;
    loop
        invariant
            0 <= i < all.len(),
            all.len() <= usize::MAX,
            reports@ =~= all.skip(i as int),
            elapsed <= max_elapsed_ms,
            spec_drive(all, delays@, max_elapsed_ms as int, 0, 0) == spec_drive(
                all,
                delays@,
                max_elapsed_ms as int,
                i as int,
                elapsed as int,
            ),
        decreases all.len() - i,
    {
        let report = reports.remove(0);
        assert(report == all[i as int]);
        match classify_attempt(report) {
            Classification::Success => {
                return RetryOutcome::Delivered { attempts: i + 1 };
            },
            Classification::Permanent(e) => {
                return RetryOutcome::GaveUp { attempts: i + 1, error: e };
            },
            Classification::Transient(b) => {
                let can_retry: bool = reports.len() > 0 && i < delays.len() && delays[i]
                    <= max_elapsed_ms - elapsed;
                assert(can_retry == spec_retry_allowed(
                    delays@,
                    max_elapsed_ms as int,
                    i as int,
                    elapsed as int,
                    all.len() as int,
                ));
                if can_retry {
                    elapsed = elapsed + delays[i];
                    i = i + 1;
                } else {
                    return RetryOutcome::GaveUp { attempts: i + 1, error: ExecError::Api(b) };
                }
            },
        }
    }
}

/// A permanent-classified failure is surfaced after exactly one attempt:
/// the executor never retries it.
pub proof fn lemma_permanent_failure_never_retries(
    reports: Seq<AttemptReport>,
    delays: Seq<u64>,
    budget: int,
)
    requires
        reports.len() > 0,
        spec_classify(reports[0]) is Permanent,
    ensures
        spec_drive(reports, delays, budget, 0, 0) == (RetryOutcome::GaveUp {
            attempts: 1usize,
            error: spec_classify(reports[0])->Permanent_0,
        }),
{
}

/// A transient-classified failure followed by a success, with the first
/// backoff delay within the budget, delivers the success to the caller after
/// exactly two attempts.
pub proof fn lemma_transient_then_success_delivers(
    reports: Seq<AttemptReport>,
    delays: Seq<u64>,
    budget: int,
)
    requires
        reports.len() >= 2,
        spec_classify(reports[0]) is Transient,
        spec_classify(reports[1]) is Success,
        delays.len() >= 1,
        delays[0] <= budget,
    ensures
        spec_drive(reports, delays, budget, 0, 0) == (RetryOutcome::Delivered { attempts: 2usize }),
{
    assert(spec_retry_allowed(delays, budget, 0, 0, reports.len() as int));
    assert(spec_drive(reports, delays, budget, 1, 0 + delays[0]) == (RetryOutcome::Delivered {
        attempts: 2usize,
    }));
}

} // verus!

