//! Jobs handed out by the server, and how the answers about them are judged.
use vstd::prelude::*;

use crate::net::client::{
    detail_member, detail_text, is_retryable, lemma_retryable_is_listed, listed_for_retry,
    response_detail, retryable, screen_response,
    screened, HttpOutcome, RetryDecision, WorkerError, REPORT_RETRIES,
};
use crate::text::{contains_str, has_substring, lowercase, same_text, to_lowercase};

verus! {

/// One file to fetch and pass on.
pub struct FileJob {
    pub file_id: i64,
    pub url: String,
    pub dest_path: String,
    pub size: Option<u64>,
}

/// A batch of jobs, as the server sends it.
pub struct JobBatchResponse {
    pub jobs: Vec<FileJob>,
    pub lease_timeout_minutes: u32,
}

/// What an answer to a job request leads to: `Ok` with the body to parse, or the error.
pub open spec fn fetch_answer_ok(status: u16, body: Seq<char>, res: Result<String, WorkerError>) -> bool {
    if status == 426 || status == 401 {
        res matches Err(e) && screened(status, body, e)
    } else if status >= 400 {
        res matches Err(WorkerError::ServerError(c, m)) && c == status && m@ == body
    } else {
        res matches Ok(b) && b@ == body
    }
}

/// Judges the answer to a request for jobs: a 426 or 401 ends the worker's
/// session, another error status is a server error, anything else is a batch to parse.
pub fn check_fetch_response(status: u16, body: String) -> (res: Result<String, WorkerError>)
    ensures
        fetch_answer_ok(status, body@, res),
{
    if let Some(e) = screen_response(status, body.as_str()) {
        return Err(e);
    }
    if status >= 400 {
        return Err(WorkerError::ServerError(status, body));
    }
    Ok(body)
}

/// An answer's detail that means the upload is still being finalized.
pub open spec fn finalize_pending(detail: Seq<char>) -> bool {
    has_substring(lowercase(detail), "not finalized"@) || has_substring(lowercase(detail), "upload"@)
}

/// How long to wait before reporting again while the upload is finalized:
/// 0.25 s plus 0.1 s per attempt, at most 2 s.
pub open spec fn finalize_pause_millis(attempt: u32) -> u64 {
    if 250 + 100 * attempt <= 2000 {
        (250 + 100 * attempt) as u64
    } else {
        2000
    }
}

/// What one attempt at reporting a job decides, given its outcome.
pub open spec fn report_attempt_ok(
    job_status: Seq<char>,
    attempt: u32,
    outcome: HttpOutcome,
    res: RetryDecision<()>,
) -> bool {
    let last = attempt == REPORT_RETRIES;
    match outcome {
        HttpOutcome::Transport(e) => if last {
            res == RetryDecision::<()>::Fail(WorkerError::Http(e))
        } else {
            res == RetryDecision::<()>::Backoff { cap_secs: 20 }
        },
        HttpOutcome::Response { status, body } => if status == 426 || status == 401 {
            res matches RetryDecision::Fail(e) && screened(status, body@, e)
        } else if status == 409 && job_status == "completed"@ && finalize_pending(
            detail_text(body@, detail_member(body@)),
        ) {
            if last {
                res matches RetryDecision::Fail(WorkerError::ServerError(c, m)) && c == status && m@
                    == body@
            } else {
                res == RetryDecision::<()>::Pause { millis: finalize_pause_millis(attempt) }
            }
        } else if retryable(status) {
            if last {
                res matches RetryDecision::Fail(WorkerError::ServerError(c, m)) && c == status && m@
                    == body@
            } else {
                res == RetryDecision::<()>::Backoff { cap_secs: 20 }
            }
        } else if status >= 400 {
            res matches RetryDecision::Fail(WorkerError::ServerError(c, m)) && c == status && m@
                == body@
        } else {
            res == RetryDecision::<()>::Done(())
        },
    }
}

/// Judges one attempt at reporting a job as `job_status` ("completed" or
/// "failed"). A completed job whose upload the server has not finalized yet
/// (a 409 that says so) is reported again after a short pause.
pub fn report_job_step(job_status: &str, attempt: u32, outcome: HttpOutcome) -> (res: RetryDecision<()>)
    requires
        1 <= attempt <= REPORT_RETRIES,
    ensures
        report_attempt_ok(job_status@, attempt, outcome, res),
{
    match outcome {
        HttpOutcome::Transport(e) => {
            if attempt == REPORT_RETRIES {
                RetryDecision::Fail(WorkerError::Http(e))
            } else {
                RetryDecision::Backoff { cap_secs: 20 }
            }
        },
        HttpOutcome::Response { status, body } => {
            if let Some(e) = screen_response(status, body.as_str()) {
                return RetryDecision::Fail(e);
            }
            if status == 409 && same_text(job_status, "completed") {
                let detail = response_detail(body.as_str());
                let lower = to_lowercase(detail.as_str());
                if contains_str(lower.as_str(), "not finalized") || contains_str(lower.as_str(), "upload") {
                    if attempt == REPORT_RETRIES {
                        return RetryDecision::Fail(WorkerError::ServerError(status, body));
                    }
                    let ms: u64 = 250 + 100 * (attempt as u64);
                    let ms = if ms <= 2000 { ms } else { 2000 };
                    return RetryDecision::Pause { millis: ms };
                }
            }
            if is_retryable(status) {
                if attempt == REPORT_RETRIES {
                    return RetryDecision::Fail(WorkerError::ServerError(status, body));
                }
                return RetryDecision::Backoff { cap_secs: 20 };
            }
            if status >= 400 {
                return RetryDecision::Fail(WorkerError::ServerError(status, body));
            }
            RetryDecision::Done(())
        },
    }
}

} // verus!

verus! {

/// Where jobs are asked for.
pub fn jobs_url(server_url: &str) -> (res: String)
    ensures
        res@ == server_url@ + "/api/jobs"@,
{
    let mut s = crate::text::owned(server_url);
    crate::text::push_str(&mut s, "/api/jobs");
    s
}

/// Where jobs are reported.
pub fn report_url(server_url: &str) -> (res: String)
    ensures
        res@ == server_url@ + "/api/jobs/report"@,
{
    let mut s = crate::text::owned(server_url);
    crate::text::push_str(&mut s, "/api/jobs/report");
    s
}

/// The last attempt at a report always ends it: it never asks to try again,
/// so a report takes at most `REPORT_RETRIES` attempts.
pub proof fn lemma_report_attempts_bounded(job_status: Seq<char>, outcome: HttpOutcome, res: RetryDecision<()>)
    requires
        report_attempt_ok(job_status, REPORT_RETRIES, outcome, res),
    ensures
        !(res is Pause),
        !(res is Backoff),
{
}

/// The finalize race: when a completed job is reported while the server is
/// still processing its upload, the server answers 409 with a detail that,
/// lower-cased, mentions "upload" or "not finalized". Such a report is never
/// given up before the last attempt: it is made again after a pause of
/// 250 ms plus 100 ms per attempt, at most 2 s. On the last attempt it fails
/// with the answer's status and body.
pub proof fn lemma_report_finalize_race(attempt: u32, body: String, res: RetryDecision<()>)
    requires
        1 <= attempt <= REPORT_RETRIES,
        ({
            let l = lowercase(detail_text(body@, detail_member(body@)));
            has_substring(l, "upload"@) || has_substring(l, "not finalized"@)
        }),
        report_attempt_ok("completed"@, attempt, (HttpOutcome::Response { status: 409, body }), res),
    ensures
        attempt < REPORT_RETRIES ==> (res matches RetryDecision::Pause { millis } && millis == (if 250
            + 100 * attempt <= 2000 {
            250 + 100 * attempt
        } else {
            2000
        })),
        attempt == REPORT_RETRIES ==> (res matches RetryDecision::Fail(WorkerError::ServerError(c, m))
            && c == 409 && m@ == body@),
{
}

/// Which statuses end the worker's session when jobs are asked for: only a
/// 401 means the token has expired and only a 426 asks for an upgrade. Any
/// other status from 400 up is a server error that carries the status and
/// the body, and every status below 400 hands the body on to be parsed.
pub proof fn lemma_fetch_statuses(status: u16, body: Seq<char>, res: Result<String, WorkerError>)
    requires
        fetch_answer_ok(status, body, res),
    ensures
        status == 401 <==> (res matches Err(WorkerError::AuthExpired)),
        status == 426 <==> (res matches Err(WorkerError::UpgradeRequired(_))),
        status >= 400 && status != 401 && status != 426 ==> (res matches Err(
            WorkerError::ServerError(c, m),
        ) && c == status && m@ == body),
        status < 400 ==> (res matches Ok(b) && b@ == body),
{
}

/// How a report attempt answers each kind of outcome. A transport error or a
/// listed transient status is tried again after a back-off of at most 20 s
/// until the last attempt, which gives up; an answer below 400 ends the
/// report; a 401 means the token expired; any other status from 400 up, but
/// 426 and the finalize race of a completed job, is a server error carrying
/// the status and the body. Only the finalize race pauses.
pub proof fn lemma_report_answers(
    job_status: Seq<char>,
    attempt: u32,
    outcome: HttpOutcome,
    res: RetryDecision<()>,
)
    requires
        1 <= attempt <= REPORT_RETRIES,
        report_attempt_ok(job_status, attempt, outcome, res),
    ensures
        outcome is Transport && attempt < REPORT_RETRIES ==> (res matches RetryDecision::Backoff {
            cap_secs,
        } && cap_secs == 20),
        outcome is Transport && attempt == REPORT_RETRIES ==> (res matches RetryDecision::Fail(
            WorkerError::Http(_),
        )),
        outcome matches HttpOutcome::Response { status, body } ==> {
            &&& status < 400 ==> res == RetryDecision::<()>::Done(())
            &&& status == 401 ==> (res matches RetryDecision::Fail(WorkerError::AuthExpired))
            &&& (status != 409 && listed_for_retry(status) && attempt < REPORT_RETRIES) ==> (res matches RetryDecision::Backoff {
                cap_secs,
            } && cap_secs == 20)
            &&& (status >= 400 && status != 401 && status != 426 && !listed_for_retry(status) && (status
                != 409 || job_status != "completed"@)) ==> (res matches RetryDecision::Fail(
                WorkerError::ServerError(c, m),
            ) && c == status && m@ == body@)
            &&& res is Pause ==> (job_status == "completed"@ && status == 409)
        },
        outcome is Transport ==> !(res is Pause),
{
    match outcome {
        HttpOutcome::Response { status, body } => lemma_retryable_is_listed(status),
        HttpOutcome::Transport(_) => {},
    }
}

} // verus!
