//! What every request to the servers shares: the error type, the headers,
//! which statuses are retried, and how one attempt's answer is judged.
use vstd::prelude::*;

use crate::text::{decimal, decimal_string, owned, push_str, trim, trim_str};
use crate::worker::config::VERSION;

verus! {

/// The statuses on which a request is tried again.
pub const RETRIABLE_STATUS_CODES: [u16; 12] = [
    408,
    425,
    429,
    500,
    502,
    503,
    504,
    520,
    521,
    522,
    523,
    524,
];

/// Attempts at opening an upload session.
pub const UPLOAD_START_RETRIES: u32 = 12;

/// Attempts at sending one chunk.
pub const UPLOAD_CHUNK_RETRIES: u32 = 30;

/// Attempts at finishing an upload.
pub const UPLOAD_FINISH_RETRIES: u32 = 12;

/// Attempts at reporting a job's outcome.
pub const REPORT_RETRIES: u32 = 20;

#[verifier::external_type_specification]
#[verifier::external_body]
pub struct ExReqwestError(reqwest::Error);

#[verifier::external_type_specification]
#[verifier::external_body]
pub struct ExIoError(std::io::Error);

#[verifier::external_type_specification]
#[verifier::external_body]
pub struct ExJsonError(serde_json::Error);

/// Why a request to the servers did not succeed.
#[derive(Debug)]
pub enum WorkerError {
    Http(reqwest::Error),
    Io(std::io::Error),
    Json(serde_json::Error),
    UpgradeRequired(String),
    AuthExpired,
    ServerError(u16, String),
    RetryExhausted(String),
    Other(String),
}

impl From<reqwest::Error> for WorkerError {
    fn from(e: reqwest::Error) -> (res: Self) {
        WorkerError::Http(e)
    }
}

impl vstd::std_specs::convert::FromSpecImpl<reqwest::Error> for WorkerError {
    open spec fn obeys_from_spec() -> bool {
        true
    }

    open spec fn from_spec(e: reqwest::Error) -> Self {
        WorkerError::Http(e)
    }
}

impl From<std::io::Error> for WorkerError {
    fn from(e: std::io::Error) -> (res: Self) {
        WorkerError::Io(e)
    }
}

impl vstd::std_specs::convert::FromSpecImpl<std::io::Error> for WorkerError {
    open spec fn obeys_from_spec() -> bool {
        true
    }

    open spec fn from_spec(e: std::io::Error) -> Self {
        WorkerError::Io(e)
    }
}

impl From<serde_json::Error> for WorkerError {
    fn from(e: serde_json::Error) -> (res: Self) {
        WorkerError::Json(e)
    }
}

impl vstd::std_specs::convert::FromSpecImpl<serde_json::Error> for WorkerError {
    open spec fn obeys_from_spec() -> bool {
        true
    }

    open spec fn from_spec(e: serde_json::Error) -> Self {
        WorkerError::Json(e)
    }
}

/// Display text of a transport error (`<reqwest::Error as Display>::fmt`).
/// Nothing is claimed of the text.
#[verifier::external_body]
fn http_error_text(e: &reqwest::Error) -> String {
    format!("{e}")
}

/// Display text of an I/O error (`<std::io::Error as Display>::fmt`).
/// Nothing is claimed of the text.
#[verifier::external_body]
fn io_error_text(e: &std::io::Error) -> String {
    format!("{e}")
}

/// Display text of a JSON error (`<serde_json::Error as Display>::fmt`).
/// Nothing is claimed of the text.
#[verifier::external_body]
fn json_error_text(e: &serde_json::Error) -> String {
    format!("{e}")
}

/// The message shown for an error; `detail` is the outside error's own text
/// for the variants that carry one, and unused otherwise.
pub open spec fn message_of(e: WorkerError, detail: Seq<char>) -> Seq<char> {
    match e {
        WorkerError::Http(_) => "HTTP error: "@ + detail,
        WorkerError::Io(_) => "IO error: "@ + detail,
        WorkerError::Json(_) => "JSON error: "@ + detail,
        WorkerError::UpgradeRequired(m) => "Upgrade required: "@ + m@,
        WorkerError::AuthExpired => "Token expired. Please log in again."@,
        WorkerError::ServerError(code, m) => "Server error "@ + decimal(code as nat) + ": "@ + m@,
        WorkerError::RetryExhausted(m) => "Retries exhausted: "@ + m@,
        WorkerError::Other(m) => m@,
    }
}

/// The variants that carry an error of an outside crate.
pub open spec fn carries_outside_error(e: WorkerError) -> bool {
    e is Http || e is Io || e is Json
}

impl WorkerError {
    /// The text of the error, as the worker logs it.
    pub fn message(&self) -> (res: String)
        ensures
            carries_outside_error(*self) ==> exists|d: Seq<char>| res@ == message_of(*self, d),
            !carries_outside_error(*self) ==> res@ == message_of(*self, seq![]),
    {
        match self {
            WorkerError::Http(e) => {
                let d = http_error_text(e);
                let mut s = owned("HTTP error: ");
                push_str(&mut s, d.as_str());
                assert(s@ == message_of(*self, d@));
                s
            },
            WorkerError::Io(e) => {
                let d = io_error_text(e);
                let mut s = owned("IO error: ");
                push_str(&mut s, d.as_str());
                assert(s@ == message_of(*self, d@));
                s
            },
            WorkerError::Json(e) => {
                let d = json_error_text(e);
                let mut s = owned("JSON error: ");
                push_str(&mut s, d.as_str());
                assert(s@ == message_of(*self, d@));
                s
            },
            WorkerError::UpgradeRequired(m) => {
                let mut s = owned("Upgrade required: ");
                push_str(&mut s, m.as_str());
                s
            },
            WorkerError::AuthExpired => owned("Token expired. Please log in again."),
            WorkerError::ServerError(code, m) => {
                let mut s = owned("Server error ");
                let c = decimal_string(*code as u64);
                push_str(&mut s, c.as_str());
                push_str(&mut s, ": ");
                push_str(&mut s, m.as_str());
                s
            },
            WorkerError::RetryExhausted(m) => {
                let mut s = owned("Retries exhausted: ");
                push_str(&mut s, m.as_str());
                s
            },
            WorkerError::Other(m) => owned(m.as_str()),
        }
    }
}

/// The statuses on which a request is tried again.
pub open spec fn retryable(status: u16) -> bool {
    ||| status == 408
    ||| status == 425
    ||| status == 429
    ||| status == 500
    ||| status == 502
    ||| status == 503
    ||| status == 504
    ||| status == 520
    ||| status == 521
    ||| status == 522
    ||| status == 523
    ||| status == 524
}

/// Whether a request that got `status` is tried again.
pub fn is_retryable(status: u16) -> (b: bool)
    ensures
        b == retryable(status),
        b == exists|i: int| 0 <= i < 12 && RETRIABLE_STATUS_CODES[i] == status,
{
    let codes = RETRIABLE_STATUS_CODES;
    let mut i: usize = 0;
    while i < 12
        invariant
            i <= 12,
            codes == RETRIABLE_STATUS_CODES,
            forall|j: int| 0 <= j < i ==> codes[j] != status,
        decreases 12 - i,
    {
        if codes[i] == status {
            return true;
        }
        i += 1;
    }
    false
}

/// The name and value of the authorisation header.
pub open spec fn auth_header_spec(token: Seq<char>) -> (Seq<char>, Seq<char>) {
    ("Authorization"@, "Bearer "@ + token)
}

/// The name and value of the header that names the worker's version.
pub open spec fn version_header_spec() -> (Seq<char>, Seq<char>) {
    ("X-Minerva-Worker-Version"@, VERSION@)
}

/// The headers sent with every request, in order: the bearer token, then the
/// worker's version.
pub fn auth_headers(token: &str) -> (res: Vec<(String, String)>)
    ensures
        res.len() == 2,
        (res[0].0@, res[0].1@) == auth_header_spec(token@),
        (res[1].0@, res[1].1@) == version_header_spec(),
{
    let mut bearer = owned("Bearer ");
    push_str(&mut bearer, token);
    let mut res: Vec<(String, String)> = Vec::new();
    res.push((owned("Authorization"), bearer));
    res.push((owned("X-Minerva-Worker-Version"), owned(VERSION)));
    res
}

// ---------------------------------------------------------------------------
// JSON bodies
// ---------------------------------------------------------------------------
/// What `serde_json` reads of `body`: `None` when it is not JSON; otherwise the
/// string member named `key`, if the body is an object that has one.
pub uninterp spec fn json_string_member(body: Seq<char>, key: Seq<char>) -> Option<
    Option<Seq<char>>,
>;

/// The view of an optional string.
pub open spec fn opt_view(o: Option<String>) -> Option<Seq<char>> {
    match o {
        Some(s) => Some(s@),
        None => None,
    }
}

/// Parses `body` as JSON (`serde_json::from_str::<serde_json::Value>`) and reads
/// its string member `key` (`Value::get`, then `Value::as_str`).
/// Claimed: the outcome is `json_string_member` of the body and the key;
/// the error is the parser's own.
#[verifier::external_body]
pub(crate) fn parse_json_string_member(body: &str, key: &str) -> (res: Result<
    Option<String>,
    serde_json::Error,
>)
    ensures
        match res {
            Ok(m) => json_string_member(body@, key@) == Some(opt_view(m)),
            Err(_) => json_string_member(body@, key@) is None,
        },
{
    match serde_json::from_str::<serde_json::Value>(body) {
        Ok(v) => Ok(v.get(key).and_then(serde_json::Value::as_str).map(String::from)),
        Err(e) => Err(e),
    }
}

/// The `detail` string of a JSON error body, if it has one.
pub open spec fn detail_member(body: Seq<char>) -> Option<Seq<char>> {
    match json_string_member(body, "detail"@) {
        Some(Some(d)) => Some(d),
        _ => None,
    }
}

/// The `detail` string of a JSON body, read with `serde_json`.
fn json_detail(body: &str) -> (res: Option<String>)
    ensures
        opt_view(res) == detail_member(body@),
{
    match parse_json_string_member(body, "detail") {
        Ok(Some(d)) => Some(d),
        _ => None,
    }
}

/// The text of an error answer: its `detail`, else the trimmed body.
pub open spec fn detail_text(body: Seq<char>, detail: Option<Seq<char>>) -> Seq<char> {
    match detail {
        Some(d) => d,
        None => trim(body),
    }
}

/// The reason given by a 426 answer: its `detail`, else the trimmed body, else a
/// fixed text when the body is blank.
pub open spec fn upgrade_text(body: Seq<char>, detail: Option<Seq<char>>) -> Seq<char> {
    match detail {
        Some(d) => d,
        None => if trim(body).len() == 0 {
            "Worker update required"@
        } else {
            trim(body)
        },
    }
}

/// The text of an error answer, given what `serde_json` found as its `detail`.
pub fn detail_or_body(body: &str, detail: Option<String>) -> (res: String)
    ensures
        res@ == detail_text(body@, opt_view(detail)),
{
    match detail {
        Some(d) => d,
        None => trim_str(body),
    }
}

/// Extracts the `detail` field of a JSON error body, else the trimmed body.
pub fn response_detail(body: &str) -> (res: String)
    ensures
        res@ == detail_text(body@, detail_member(body@)),
{
    let d = json_detail(body);
    detail_or_body(body, d)
}

/// The error for a 426 answer, given what `serde_json` found as its `detail`.
pub fn upgrade_required_error(body: &str, detail: Option<String>) -> (res: WorkerError)
    ensures
        res matches WorkerError::UpgradeRequired(m) && m@ == upgrade_text(body@, opt_view(detail)),
{
    match detail {
        Some(d) => WorkerError::UpgradeRequired(d),
        None => {
            let t = trim_str(body);
            if t.as_str().is_empty() {
                WorkerError::UpgradeRequired(owned("Worker update required"))
            } else {
                WorkerError::UpgradeRequired(t)
            }
        },
    }
}

/// A 426 answer means that the server wants a newer worker: `Err` exactly then.
pub fn check_upgrade_required(status: u16, body: &str) -> (res: Result<(), WorkerError>)
    ensures
        status != 426 ==> res is Ok,
        status == 426 ==> (res matches Err(WorkerError::UpgradeRequired(m)) && m@ == upgrade_text(
            body@,
            detail_member(body@),
        )),
{
    if status == 426 {
        let d = json_detail(body);
        return Err(upgrade_required_error(body, d));
    }
    Ok(())
}

// ---------------------------------------------------------------------------
// One attempt of a retried request
// ---------------------------------------------------------------------------
/// What one attempt at a request came back with.
pub enum HttpOutcome {
    /// The server answered with this status and body.
    Response { status: u16, body: String },
    /// The request did not get an answer.
    Transport(reqwest::Error),
}

/// What the caller of a retried request does next.
pub enum RetryDecision<T> {
    /// The request succeeded with this value.
    Done(T),
    /// The request failed for good.
    Fail(WorkerError),
    /// Wait this many milliseconds, then try again.
    Pause { millis: u64 },
    /// Wait a random back-off capped at this many seconds, then try again.
    Backoff { cap_secs: u64 },
}

/// The checks made of every answer before its status is looked at further:
/// a 426 (upgrade required) and then a 401 (token expired) end the request.
pub open spec fn screened(status: u16, body: Seq<char>, e: WorkerError) -> bool {
    if status == 426 {
        e matches WorkerError::UpgradeRequired(m) && m@ == upgrade_text(body, detail_member(body))
    } else {
        status == 401 && e is AuthExpired
    }
}

/// Upgrade and expiry checks on an answer: `Some` exactly for a 426 or a 401.
pub fn screen_response(status: u16, body: &str) -> (res: Option<WorkerError>)
    ensures
        (status == 426 || status == 401) <==> res is Some,
        (res matches Some(e) ==> screened(status, body@, e)),
{
    match check_upgrade_required(status, body) {
        Err(e) => Some(e),
        Ok(()) => if status == 401 {
            Some(WorkerError::AuthExpired)
        } else {
            None
        },
    }
}

/// The stages of the chunked upload.
#[derive(Clone, Copy, PartialEq, Eq, Structural)]
pub enum UploadStage {
    Start,
    Chunk,
    Finish,
}

/// How many attempts a stage makes.
pub open spec fn stage_retries(stage: UploadStage) -> u32 {
    match stage {
        UploadStage::Start => UPLOAD_START_RETRIES,
        UploadStage::Chunk => UPLOAD_CHUNK_RETRIES,
        UploadStage::Finish => UPLOAD_FINISH_RETRIES,
    }
}

/// The cap, in seconds, of a stage's random back-off.
pub open spec fn stage_backoff_cap(stage: UploadStage) -> u64 {
    match stage {
        UploadStage::Start => 25,
        UploadStage::Chunk => 20,
        UploadStage::Finish => 20,
    }
}

/// How a stage's failure is described.
pub open spec fn stage_label(stage: UploadStage) -> Seq<char> {
    match stage {
        UploadStage::Start => "upload start failed"@,
        UploadStage::Chunk => "upload chunk failed"@,
        UploadStage::Finish => "upload finish failed"@,
    }
}

/// The message of a stage that ran out of attempts: its label and, in brackets, why.
pub open spec fn exhausted_text(stage: UploadStage, why: Seq<char>) -> Seq<char> {
    stage_label(stage) + " ("@ + why + ")"@
}

/// How many attempts a stage makes.
pub fn stage_attempts(stage: UploadStage) -> (n: u32)
    ensures
        n == stage_retries(stage),
{
    match stage {
        UploadStage::Start => UPLOAD_START_RETRIES,
        UploadStage::Chunk => UPLOAD_CHUNK_RETRIES,
        UploadStage::Finish => UPLOAD_FINISH_RETRIES,
    }
}

fn stage_cap(stage: UploadStage) -> (n: u64)
    ensures
        n == stage_backoff_cap(stage),
{
    match stage {
        UploadStage::Start => 25,
        UploadStage::Chunk => 20,
        UploadStage::Finish => 20,
    }
}

/// The error of a stage that ran out of attempts, for the reason `why`.
pub fn exhausted_error(stage: UploadStage, why: &str) -> (res: WorkerError)
    ensures
        res matches WorkerError::RetryExhausted(m) && m@ == exhausted_text(stage, why@),
{
    let mut s = match stage {
        UploadStage::Start => owned("upload start failed"),
        UploadStage::Chunk => owned("upload chunk failed"),
        UploadStage::Finish => owned("upload finish failed"),
    };
    push_str(&mut s, " (");
    push_str(&mut s, why);
    push_str(&mut s, ")");
    WorkerError::RetryExhausted(s)
}

/// What one attempt of an upload stage decides, given its outcome.
pub open spec fn upload_attempt_ok(
    stage: UploadStage,
    attempt: u32,
    outcome: HttpOutcome,
    res: RetryDecision<String>,
) -> bool {
    let last = attempt == stage_retries(stage);
    match outcome {
        HttpOutcome::Transport(_) => if last {
            res matches RetryDecision::Fail(WorkerError::RetryExhausted(m)) && exists|t: Seq<char>|
                m@ == #[trigger] exhausted_text(stage, t)
        } else {
            res == RetryDecision::<String>::Backoff { cap_secs: stage_backoff_cap(stage) }
        },
        HttpOutcome::Response { status, body } => if status == 426 || status == 401 {
            res matches RetryDecision::Fail(e) && screened(status, body@, e)
        } else if retryable(status) {
            if last {
                res matches RetryDecision::Fail(WorkerError::RetryExhausted(m)) && m@
                    == exhausted_text(stage, decimal(status as nat))
            } else {
                res == RetryDecision::<String>::Backoff { cap_secs: stage_backoff_cap(stage) }
            }
        } else if status >= 400 {
            res matches RetryDecision::Fail(WorkerError::ServerError(code, m)) && code == status
                && m@ == body@
        } else {
            res matches RetryDecision::Done(b) && b@ == body@
        },
    }
}

/// Judges one attempt of an upload stage: success hands back the body; a
/// transport error or a retried status is tried again until the stage's
/// attempts run out.
pub fn upload_attempt(stage: UploadStage, attempt: u32, outcome: HttpOutcome) -> (res:
    RetryDecision<String>)
    requires
        1 <= attempt <= stage_retries(stage),
    ensures
        upload_attempt_ok(stage, attempt, outcome, res),
{
    let max = stage_attempts(stage);
    match outcome {
        HttpOutcome::Transport(e) => {
            if attempt == max {
                let t = http_error_text(&e);
                let err = exhausted_error(stage, t.as_str());
                assert(err matches WorkerError::RetryExhausted(m) && m@ == exhausted_text(stage, t@));
                RetryDecision::Fail(err)
            } else {
                RetryDecision::Backoff { cap_secs: stage_cap(stage) }
            }
        },
        HttpOutcome::Response { status, body } => {
            if let Some(e) = screen_response(status, body.as_str()) {
                return RetryDecision::Fail(e);
            }
            if is_retryable(status) {
                if attempt == max {
                    let code = decimal_string(status as u64);
                    return RetryDecision::Fail(exhausted_error(stage, code.as_str()));
                }
                return RetryDecision::Backoff { cap_secs: stage_cap(stage) };
            }
            if status >= 400 {
                return RetryDecision::Fail(WorkerError::ServerError(status, body));
            }
            RetryDecision::Done(body)
        },
    }
}

/// A transport error never ends an upload stage early. On every attempt
/// before the stage's last (the 12th when opening the session, the 30th for a
/// chunk, the 12th when finishing) the stage backs off, for at most 25 s when
/// opening the session and 20 s otherwise, and is tried again; only the last
/// attempt gives up, with the retries spent.
pub proof fn lemma_upload_transport_retried(
    stage: UploadStage,
    attempt: u32,
    outcome: HttpOutcome,
    res: RetryDecision<String>,
)
    requires
        outcome is Transport,
        1 <= attempt,
        upload_attempt_ok(stage, attempt, outcome, res),
    ensures
        attempt < (if stage is Chunk {
            30u32
        } else {
            12u32
        }) ==> (res matches RetryDecision::Backoff { cap_secs } && cap_secs == (if stage is Start {
            25u64
        } else {
            20u64
        })),
        attempt == (if stage is Chunk {
            30u32
        } else {
            12u32
        }) ==> (res matches RetryDecision::Fail(WorkerError::RetryExhausted(_))),
{
}

/// A status that appears in `RETRIABLE_STATUS_CODES`.
pub open spec fn listed_for_retry(status: u16) -> bool {
    exists|i: int| 0 <= i < 12 && RETRIABLE_STATUS_CODES[i] == status
}

/// The statuses that are tried again are exactly those listed in
/// `RETRIABLE_STATUS_CODES`.
pub proof fn lemma_retryable_is_listed(status: u16)
    ensures
        retryable(status) <==> listed_for_retry(status),
{
    if retryable(status) {
        let codes = RETRIABLE_STATUS_CODES;
        if status == 408 { assert(codes[0] == status); }
        else if status == 425 { assert(codes[1] == status); }
        else if status == 429 { assert(codes[2] == status); }
        else if status == 500 { assert(codes[3] == status); }
        else if status == 502 { assert(codes[4] == status); }
        else if status == 503 { assert(codes[5] == status); }
        else if status == 504 { assert(codes[6] == status); }
        else if status == 520 { assert(codes[7] == status); }
        else if status == 521 { assert(codes[8] == status); }
        else if status == 522 { assert(codes[9] == status); }
        else if status == 523 { assert(codes[10] == status); }
        else { assert(codes[11] == status); }
    }
}

/// How an upload stage answers each kind of outcome. An answer below 400
/// succeeds and hands its body on; a 401 means the token expired; a listed
/// transient status is tried again after a back-off (at most 25 s when
/// opening the session, 20 s otherwise) until the stage's last attempt, which
/// gives up with the retries spent; any other status from 400 up, but 426, is
/// a server error carrying the status and the body.
pub proof fn lemma_upload_answers(stage: UploadStage, attempt: u32, status: u16, body: String, res: RetryDecision<String>)
    requires
        1 <= attempt,
        upload_attempt_ok(stage, attempt, (HttpOutcome::Response { status, body }), res),
    ensures
        status < 400 ==> (res matches RetryDecision::Done(b) && b@ == body@),
        status == 401 ==> (res matches RetryDecision::Fail(WorkerError::AuthExpired)),
        listed_for_retry(status) && attempt < (if stage is Chunk {
            30u32
        } else {
            12u32
        }) ==> (res matches RetryDecision::Backoff { cap_secs } && cap_secs == (if stage is Start {
            25u64
        } else {
            20u64
        })),
        listed_for_retry(status) && attempt == (if stage is Chunk {
            30u32
        } else {
            12u32
        }) ==> (res matches RetryDecision::Fail(WorkerError::RetryExhausted(_))),
        status >= 400 && status != 401 && status != 426 && !listed_for_retry(status) ==> (res matches RetryDecision::Fail(
            WorkerError::ServerError(c, m),
        ) && c == status && m@ == body@),
{
    lemma_retryable_is_listed(status);
}

} // verus!
