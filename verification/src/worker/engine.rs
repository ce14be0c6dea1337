//! The decisions of the worker loop: how many jobs to ask for, which jobs
//! are new, and the life of one job from download to report.
//!
//! The loop itself (network, files, timers, tasks) is run by the caller,
//! which carries out the effects that these functions hand back, in order.
use vstd::prelude::*;
use vstd::utf8::{encode_utf8, is_char_boundary};

use crate::net::client::{carries_outside_error, message_of, WorkerError};
use crate::net::jobs::FileJob;
use crate::text::{
    byte_len, byte_suffix, cut_bytes, cut_to_bytes, cuttable, decimal, decimal_string, owned,
    push_str, suffix_bytes,
};
use crate::ui::messages::{is_log_line, is_status_text, TransferPhase, UiMessage};
use crate::worker::config::{Config, WorkerStats, MAX_RETRIES, QUEUE_PREFETCH, RETRY_DELAY_SECS};

verus! {

broadcast use vstd::std_specs::hash::group_hash_axioms;

// ---------------------------------------------------------------------------
// Start-up
// ---------------------------------------------------------------------------
/// The number of jobs the queue holds: `QUEUE_PREFETCH` per concurrent job.
pub fn queue_capacity(concurrency: usize) -> (cap: usize)
    requires
        concurrency * QUEUE_PREFETCH <= usize::MAX,
    ensures
        cap == concurrency * QUEUE_PREFETCH,
{
    concurrency * QUEUE_PREFETCH
}

/// The lines logged when the worker starts: the two servers and the concurrency.
pub fn startup_messages(config: &Config) -> (res: Vec<UiMessage>)
    ensures
        res.len() == 3,
        res[0] matches UiMessage::LogLine(t) && t@ == "Server:      "@ + config.server_url@,
        res[1] matches UiMessage::LogLine(t) && t@ == "Upload API:  "@ + config.upload_server_url@,
        res[2] matches UiMessage::LogLine(t) && t@ == "Concurrency: "@ + decimal(
            config.concurrency as nat,
        ),
{
    let mut a = owned("Server:      ");
    push_str(&mut a, config.server_url.as_str());
    let mut b = owned("Upload API:  ");
    push_str(&mut b, config.upload_server_url.as_str());
    let mut c = owned("Concurrency: ");
    let n = decimal_string(config.concurrency as u64);
    push_str(&mut c, n.as_str());
    let mut res: Vec<UiMessage> = Vec::new();
    res.push(UiMessage::LogLine(a));
    res.push(UiMessage::LogLine(b));
    res.push(UiMessage::LogLine(c));
    res
}

// ---------------------------------------------------------------------------
// The producer
// ---------------------------------------------------------------------------
/// How many jobs to ask for: at most 4, at most the batch size, and at most
/// the room left in the queue, but at least 1 of that room.
pub open spec fn fetch_count_spec(batch_size: usize, capacity: usize, queued: usize) -> u32 {
    let room: int = if capacity - queued >= 1 {
        capacity - queued
    } else {
        1
    };
    let m: int = if batch_size < 4 {
        batch_size as int
    } else {
        4
    };
    (if m < room {
        m
    } else {
        room
    }) as u32
}

/// How many jobs to ask for next.
pub fn fetch_count(batch_size: usize, capacity: usize, queued: usize) -> (n: u32)
    requires
        queued <= capacity,
    ensures
        n == fetch_count_spec(batch_size, capacity, queued),
        n <= 4,
        n <= batch_size,
        batch_size >= 1 ==> n >= 1,
{
    let room = if capacity - queued >= 1 {
        capacity - queued
    } else {
        1
    };
    let m = if batch_size < 4 {
        batch_size
    } else {
        4
    };
    let n = if m < room {
        m
    } else {
        room
    };
    n as u32
}

/// What the producer does next.
pub enum ProducerAction {
    /// The worker was stopped: leave the loop.
    Exit,
    /// The queue is full enough: wait this long and look again.
    WaitForRoom { millis: u64 },
    /// Stop the worker, showing this message.
    Stop(UiMessage),
    /// Ask the server for `count` jobs with this token.
    Fetch { token: String, count: u32 },
}

/// Decides the producer's next step. It waits while the queue holds at least
/// one job per concurrent worker, and stops when there is no token.
pub fn producer_plan(
    running: bool,
    queued: usize,
    capacity: usize,
    concurrency: usize,
    batch_size: usize,
    token: Option<String>,
) -> (res: ProducerAction)
    requires
        queued <= capacity,
    ensures
        !running ==> res is Exit,
        running && queued >= concurrency ==> res == (ProducerAction::WaitForRoom { millis: 500 }),
        running && queued < concurrency && token is None ==> (res matches ProducerAction::Stop(m)
            && m matches UiMessage::LogLine(t) && t@ == "No token available. Please login."@),
        running && queued < concurrency && token is Some ==> (res matches ProducerAction::Fetch {
            token: t,
            count,
        } && Some(t) == token && count == fetch_count_spec(batch_size, capacity, queued)),
{
    if !running {
        return ProducerAction::Exit;
    }
    if queued >= concurrency {
        return ProducerAction::WaitForRoom { millis: 500 };
    }
    match token {
        None => ProducerAction::Stop(
            UiMessage::LogLine(owned("No token available. Please login.")),
        ),
        Some(t) => ProducerAction::Fetch { token: t, count: fetch_count(batch_size, capacity, queued) },
    }
}

/// What the producer remembers between batches: whether it already said
/// that there were no jobs.
pub struct ProducerState {
    pub no_jobs_warned: bool,
}

impl ProducerState {
    /// A producer that has not warned yet.
    pub fn new() -> (res: Self)
        ensures
            !res.no_jobs_warned,
    {
        ProducerState { no_jobs_warned: false }
    }

    /// An empty batch: say so once, until jobs come again.
    pub fn on_empty_batch(&mut self) -> (res: Vec<UiMessage>)
        ensures
            final(self).no_jobs_warned,
            old(self).no_jobs_warned ==> res.len() == 0,
            !old(self).no_jobs_warned ==> (res.len() == 2 && is_log_line(
                res[0],
                "No jobs available, waiting..."@,
            ) && is_status_text(res[1], "Waiting for jobs..."@)),
    {
        let mut res: Vec<UiMessage> = Vec::new();
        if !self.no_jobs_warned {
            res.push(UiMessage::LogLine(owned("No jobs available, waiting...")));
            res.push(UiMessage::StatusText(owned("Waiting for jobs...")));
            self.no_jobs_warned = true;
        }
        res
    }

    /// A batch with jobs: the next empty batch is reported again.
    pub fn on_jobs_received(&mut self)
        ensures
            !final(self).no_jobs_warned,
    {
        self.no_jobs_warned = false;
    }
}

/// What the producer does after a failed request for jobs.
pub enum FetchFailure {
    /// Stop the worker, showing this message.
    Stop(UiMessage),
    /// Show this message, wait a while, and ask again.
    Retry(UiMessage),
}

/// After a failed request for jobs: an expired token or a required upgrade
/// stops the worker; anything else is retried.
pub fn on_fetch_error(e: WorkerError) -> (res: FetchFailure)
    ensures
        e is AuthExpired ==> (res matches FetchFailure::Stop(m) && m matches UiMessage::LogLine(t)
            && t@ == "Token expired. Please login again."@),
        e matches WorkerError::UpgradeRequired(msg) ==> (res matches FetchFailure::Stop(m)
            && m matches UiMessage::LogLine(t) && t@ == "Upgrade required: "@ + msg@),
        !(e is AuthExpired) && !(e is UpgradeRequired) ==> (res matches FetchFailure::Retry(m)
            && m matches UiMessage::LogLine(t) && exists|d: Seq<char>|
            t@ == "Server error: "@ + #[trigger] message_of(e, d) + ". Retrying..."@),
{
    match e {
        WorkerError::AuthExpired => FetchFailure::Stop(
            UiMessage::LogLine(owned("Token expired. Please login again.")),
        ),
        WorkerError::UpgradeRequired(msg) => {
            let mut t = owned("Upgrade required: ");
            push_str(&mut t, msg.as_str());
            FetchFailure::Stop(UiMessage::LogLine(t))
        },
        other => {
            let text = other.message();
            let ghost d = choose|d: Seq<char>| text@ == message_of(other, d);
            assert(text@ == message_of(other, d)) by {
                if !carries_outside_error(other) {
                    assert(text@ == message_of(other, seq![]));
                }
            }
            let mut t = owned("Server error: ");
            push_str(&mut t, text.as_str());
            push_str(&mut t, ". Retrying...");
            FetchFailure::Retry(UiMessage::LogLine(t))
        },
    }
}

/// The ids of the jobs that are queued or being worked on, so that a job
/// handed out twice is only worked on once.
pub struct SeenJobs {
    ids: std::collections::HashSet<i64>,
}

impl View for SeenJobs {
    type V = Set<i64>;

    closed spec fn view(&self) -> Set<i64> {
        self.ids@
    }
}

impl SeenJobs {
    /// No job seen yet.
    pub fn new() -> (res: Self)
        ensures
            res@ == Set::<i64>::empty(),
    {
        SeenJobs { ids: std::collections::HashSet::new() }
    }

    /// Marks a job as seen; `true` exactly when it was not seen before (and so
    /// is to be queued).
    pub fn mark_seen(&mut self, file_id: i64) -> (fresh: bool)
        ensures
            final(self)@ == old(self)@.insert(file_id),
            fresh == !old(self)@.contains(file_id),
    {
        self.ids.insert(file_id)
    }

    /// Forgets a job once it is done with (or dropped).
    pub fn release(&mut self, file_id: i64)
        ensures
            final(self)@ == old(self)@.remove(file_id),
    {
        self.ids.remove(&file_id);
    }

    /// Takes a job off the queue: it is worked on only while the worker runs.
    /// A job taken while the worker is stopped is dropped and forgotten, so a
    /// later batch may hand it out again; one that is worked on stays seen.
    pub fn take_for_work(&mut self, file_id: i64, running: bool) -> (work: bool)
        ensures
            work == running,
            running ==> final(self)@ == old(self)@,
            !running ==> final(self)@ == old(self)@.remove(file_id),
    {
        if !running {
            self.release(file_id);
        }
        running
    }

    /// Whether a job is queued or being worked on.
    pub fn contains(&self, file_id: i64) -> (b: bool)
        ensures
            b == self@.contains(file_id),
    {
        self.ids.contains(&file_id)
    }
}

/// A job is taken once until it is released: marking it again before
/// that finds it seen, and after the release finds it fresh.
pub proof fn lemma_seen_once(seen: Set<i64>, file_id: i64)
    ensures
        seen.insert(file_id).contains(file_id),
        !seen.insert(file_id).remove(file_id).contains(file_id),
{
}

/// The ids of the jobs in flight (sent to the queue and not yet released by a
/// consumer), in the order they were sent: pairwise distinct, and all seen.
pub open spec fn in_flight_ok(seen: Set<i64>, in_flight: Seq<i64>) -> bool {
    &&& forall|i: int, j: int|
        0 <= i < j < in_flight.len() ==> #[trigger] in_flight[i] != #[trigger] in_flight[j]
    &&& forall|i: int| 0 <= i < in_flight.len() ==> seen.contains(#[trigger] in_flight[i])
}

/// The producer marks each job of a batch and sends it only when the mark
/// found it fresh. Whatever the job, the jobs in flight stay pairwise distinct
/// and seen; one whose id is already seen (in flight, or earlier in the same
/// batch) is not sent.
pub proof fn lemma_in_flight_send(seen: Set<i64>, in_flight: Seq<i64>, file_id: i64)
    requires
        in_flight_ok(seen, in_flight),
    ensures
        seen.contains(file_id) ==> in_flight_ok(seen.insert(file_id), in_flight),
        !seen.contains(file_id) ==> in_flight_ok(seen.insert(file_id), in_flight.push(file_id)),
{
    let s2 = seen.insert(file_id);
    if !seen.contains(file_id) {
        let f2 = in_flight.push(file_id);
        assert forall|i: int, j: int| 0 <= i < j < f2.len() implies #[trigger] f2[i]
            != #[trigger] f2[j] by {
            if j == in_flight.len() {
                assert(seen.contains(in_flight[i]));
            } else {
                assert(in_flight[i] != in_flight[j]);
            }
        }
        assert forall|i: int| 0 <= i < f2.len() implies s2.contains(#[trigger] f2[i]) by {
            if i < in_flight.len() {
                assert(seen.contains(in_flight[i]));
            }
        }
    } else {
        assert forall|i: int| 0 <= i < in_flight.len() implies s2.contains(
            #[trigger] in_flight[i],
        ) by {
            assert(seen.contains(in_flight[i]));
        }
    }
}

/// A consumer releases a job once it is done with it, or when it drops it
/// because the worker is stopped. The other jobs in flight stay pairwise
/// distinct and seen, and the released id is no longer seen.
pub proof fn lemma_in_flight_release(seen: Set<i64>, in_flight: Seq<i64>, k: int)
    requires
        in_flight_ok(seen, in_flight),
        0 <= k < in_flight.len(),
    ensures
        in_flight_ok(seen.remove(in_flight[k]), in_flight.remove(k)),
        !seen.remove(in_flight[k]).contains(in_flight[k]),
{
    let id = in_flight[k];
    let f2 = in_flight.remove(k);
    let s2 = seen.remove(id);
    assert forall|i: int, j: int| 0 <= i < j < f2.len() implies #[trigger] f2[i]
        != #[trigger] f2[j] by {
        let a = if i < k { i } else { i + 1 };
        let b = if j < k { j } else { j + 1 };
        assert(f2[i] == in_flight[a]);
        assert(f2[j] == in_flight[b]);
        assert(in_flight[a] != in_flight[b]);
    }
    assert forall|i: int| 0 <= i < f2.len() implies s2.contains(#[trigger] f2[i]) by {
        let a = if i < k { i } else { i + 1 };
        assert(f2[i] == in_flight[a]);
        assert(in_flight[a] != in_flight[k]);
        assert(seen.contains(in_flight[a]));
    }
}

/// What the producer and the consumers do to the seen set and the queue.
pub enum FlightEvent {
    /// The producer takes a job of a batch: it marks the id as seen, and sends
    /// the job only when the mark found it fresh.
    Offer(i64),
    /// A consumer is done with the job at this place among those in flight
    /// (or drops it while stopped): it releases the job's id.
    Finish(usize),
}

/// The seen set and the ids in flight after one event.
pub open spec fn flight_step(state: (Set<i64>, Seq<i64>), e: FlightEvent) -> (Set<i64>, Seq<i64>) {
    let (seen, in_flight) = state;
    match e {
        FlightEvent::Offer(id) => if seen.contains(id) {
            (seen, in_flight)
        } else {
            (seen.insert(id), in_flight.push(id))
        },
        FlightEvent::Finish(k) => if k < in_flight.len() {
            (seen.remove(in_flight[k as int]), in_flight.remove(k as int))
        } else {
            (seen, in_flight)
        },
    }
}

/// The seen set and the ids in flight after a run of events, from the start
/// (nothing seen, nothing sent).
pub open spec fn flight_run(events: Seq<FlightEvent>) -> (Set<i64>, Seq<i64>)
    decreases events.len(),
{
    if events.len() == 0 {
        (Set::empty(), seq![])
    } else {
        flight_step(flight_run(events.drop_last()), events.last())
    }
}

/// In every state that the producer and the consumers reach, whatever the
/// order of their steps, the jobs in flight have pairwise distinct ids, all
/// seen; and a job whose id is seen at its offer is not sent.
pub proof fn lemma_in_flight_run(events: Seq<FlightEvent>)
    ensures
        in_flight_ok(flight_run(events).0, flight_run(events).1),
        events.len() > 0 ==> (events.last() matches FlightEvent::Offer(id) && flight_run(
            events.drop_last(),
        ).0.contains(id) ==> flight_run(events).1 == flight_run(events.drop_last()).1),
    decreases events.len(),
{
    if events.len() > 0 {
        let before = flight_run(events.drop_last());
        lemma_in_flight_run(events.drop_last());
        match events.last() {
            FlightEvent::Offer(id) => {
                lemma_in_flight_send(before.0, before.1, id);
            },
            FlightEvent::Finish(k) => {
                if k < before.1.len() {
                    lemma_in_flight_release(before.0, before.1, k as int);
                }
            },
        }
    }
}

// ---------------------------------------------------------------------------
// One job
// ---------------------------------------------------------------------------
/// A destination path can be shortened for display: it is short, or the cut
/// 57 bytes before its end falls on a character boundary.
pub open spec fn label_cuttable(dest: Seq<char>) -> bool {
    byte_len(dest) <= 60 || is_char_boundary(encode_utf8(dest), byte_len(dest) - 57)
}

/// How a destination path is shown: as it is when it has at most 60 bytes,
/// else `...` and its last 57 bytes.
pub open spec fn job_label_spec(dest: Seq<char>) -> Seq<char> {
    if byte_len(dest) <= 60 {
        dest
    } else {
        "..."@ + byte_suffix(dest, byte_len(dest) - 57)
    }
}

/// The label under which a job is shown.
pub fn job_label(dest_path: &str) -> (res: String)
    requires
        label_cuttable(dest_path@),
    ensures
        res@ == job_label_spec(dest_path@),
{
    let n = dest_path.as_bytes().len();
    if n <= 60 {
        owned(dest_path)
    } else {
        let tail = suffix_bytes(dest_path, n - 57);
        let mut s = owned("...");
        push_str(&mut s, tail.as_str());
        s
    }
}

/// The stages of a job.
#[derive(Clone, Copy, PartialEq, Eq, Structural)]
pub enum JobStage {
    Downloading,
    Uploading,
    ReportingCompleted,
    ReportingFailed,
    Finished,
}

/// What a job is reported as.
#[derive(Clone, Copy, PartialEq, Eq, Structural)]
pub enum ReportStatus {
    Completed,
    Failed,
}

/// The word the report uses for a status.
pub open spec fn report_status_text(s: ReportStatus) -> Seq<char> {
    match s {
        ReportStatus::Completed => "completed"@,
        ReportStatus::Failed => "failed"@,
    }
}

impl ReportStatus {
    /// The word the report uses for this status.
    pub fn as_str(&self) -> (res: &'static str)
        ensures
            res@ == report_status_text(*self),
    {
        match self {
            ReportStatus::Completed => "completed",
            ReportStatus::Failed => "failed",
        }
    }
}

/// One thing the caller does for a job, in the order handed out.
pub enum JobEffect {
    /// Send this message to the window.
    Notify(UiMessage),
    /// Delete the job's local file.
    RemoveLocalFile,
    /// Wait this many seconds.
    Sleep { secs: u64 },
    /// Download the file, then call `on_downloaded` or `on_attempt_failed`.
    Download,
    /// Upload the file, then call `on_uploaded` or `on_attempt_failed`.
    Upload,
    /// Report the job to the server, then call `on_reported`.
    Report { status: ReportStatus, bytes_downloaded: Option<u64>, error: Option<String> },
}

/// A message that a transfer of this job started in `phase`.
pub open spec fn is_started(e: JobEffect, file_id: i64, label: Seq<char>, phase: TransferPhase) -> bool {
    e matches JobEffect::Notify(UiMessage::TransferStarted { file_id: f, label: l, phase: p }) && f
        == file_id && l@ == label && p == phase
}

/// A message to the window that logs `text`.
pub open spec fn is_notify_log(e: JobEffect, text: Seq<char>) -> bool {
    e matches JobEffect::Notify(m) && is_log_line(m, text)
}

/// The log line of an attempt that failed and will be retried.
pub open spec fn retry_line(attempt: u32, label: Seq<char>, err: Seq<char>) -> Seq<char> {
    "RETRY "@ + decimal(attempt as nat) + "/"@ + decimal(MAX_RETRIES as nat) + " "@ + label + " ("@
        + cut_bytes(err, 72) + ")"@
}

/// The log line of a completed job whose report failed.
pub open spec fn report_delayed_line(label: Seq<char>, err: Seq<char>) -> Seq<char> {
    label + ": uploaded but report delayed ("@ + cut_bytes(err, 120) + ")"@
}

/// What happens to a job, as its run sees it.
#[derive(Clone, Copy, PartialEq, Eq, Structural)]
pub enum JobEvent {
    /// The download succeeded.
    Downloaded,
    /// The upload succeeded.
    Uploaded,
    /// The download or the upload failed.
    AttemptFailed,
    /// The report went out, or failed for good.
    Reported,
}

/// Whether an event can happen in a stage.
pub open spec fn job_event_allowed(stage: JobStage, e: JobEvent) -> bool {
    match e {
        JobEvent::Downloaded => stage == JobStage::Downloading,
        JobEvent::Uploaded => stage == JobStage::Uploading,
        JobEvent::AttemptFailed => stage == JobStage::Downloading || stage == JobStage::Uploading,
        JobEvent::Reported => stage == JobStage::ReportingCompleted || stage == JobStage::ReportingFailed,
    }
}

/// The stage and attempt number after an allowed event.
pub open spec fn job_next(stage: JobStage, attempt: u32, e: JobEvent) -> (JobStage, u32) {
    match e {
        JobEvent::Downloaded => (JobStage::Uploading, attempt),
        JobEvent::Uploaded => (JobStage::ReportingCompleted, attempt),
        JobEvent::AttemptFailed => if attempt < MAX_RETRIES {
            (JobStage::Downloading, (attempt + 1) as u32)
        } else {
            (JobStage::ReportingFailed, attempt)
        },
        JobEvent::Reported => (JobStage::Finished, attempt),
    }
}

/// How many downloads an allowed event starts.
pub open spec fn job_downloads(stage: JobStage, attempt: u32, e: JobEvent) -> nat {
    if e == JobEvent::AttemptFailed && attempt < MAX_RETRIES {
        1
    } else {
        0
    }
}

/// How many reports an allowed event sends.
pub open spec fn job_reports(stage: JobStage, attempt: u32, e: JobEvent) -> nat {
    if e == JobEvent::Uploaded || (e == JobEvent::AttemptFailed && attempt == MAX_RETRIES) {
        1
    } else {
        0
    }
}

/// The number of downloads (`report == false`) or reports (`report == true`)
/// among some effects.
pub open spec fn count_kind(effects: Seq<JobEffect>, report: bool) -> nat
    decreases effects.len(),
{
    if effects.len() == 0 {
        0
    } else {
        count_kind(effects.drop_last(), report) + if (report && effects.last() is Report) || (!report
            && effects.last() is Download) {
            1nat
        } else {
            0nat
        }
    }
}

/// A sequence of events that can happen one after the other from `stage`
/// at `attempt`.
pub open spec fn job_trace_allowed(stage: JobStage, attempt: u32, events: Seq<JobEvent>) -> bool
    decreases events.len(),
{
    if events.len() == 0 {
        true
    } else {
        let n = job_next(stage, attempt, events[0]);
        job_event_allowed(stage, events[0]) && job_trace_allowed(n.0, n.1, events.drop_first())
    }
}

/// Stage, attempt, downloads started and reports sent after a sequence of
/// events, from a stage and attempt with `downloads` and `reports` so far.
pub open spec fn job_trace(
    stage: JobStage,
    attempt: u32,
    downloads: nat,
    reports: nat,
    events: Seq<JobEvent>,
) -> (JobStage, u32, nat, nat)
    decreases events.len(),
{
    if events.len() == 0 {
        (stage, attempt, downloads, reports)
    } else {
        let e = events[0];
        let n = job_next(stage, attempt, e);
        job_trace(
            n.0,
            n.1,
            downloads + job_downloads(stage, attempt, e),
            reports + job_reports(stage, attempt, e),
            events.drop_first(),
        )
    }
}

/// The stages after the job was given up or completed.
pub open spec fn job_reported(stage: JobStage) -> bool {
    stage == JobStage::ReportingCompleted || stage == JobStage::ReportingFailed || stage
        == JobStage::Finished
}

proof fn lemma_job_trace_inv(stage: JobStage, attempt: u32, downloads: nat, reports: nat, events: Seq<JobEvent>)
    requires
        1 <= attempt <= MAX_RETRIES,
        downloads == attempt,
        reports == (if job_reported(stage) { 1nat } else { 0nat }),
        job_trace_allowed(stage, attempt, events),
    ensures
        ({
            let t = job_trace(stage, attempt, downloads, reports, events);
            &&& 1 <= t.1 <= MAX_RETRIES
            &&& t.2 == t.1
            &&& t.3 == (if job_reported(t.0) { 1nat } else { 0nat })
        }),
    decreases events.len(),
{
    if events.len() > 0 {
        let e = events[0];
        let n = job_next(stage, attempt, e);
        lemma_job_trace_inv(
            n.0,
            n.1,
            downloads + job_downloads(stage, attempt, e),
            reports + job_reports(stage, attempt, e),
            events.drop_first(),
        );
    }
}

/// Whatever happens to a job, it is downloaded at most `MAX_RETRIES` times and
/// reported at most once; it is reported exactly when it has been given up or
/// completed. (A run starts downloading once, at attempt 1, with no report.)
pub proof fn lemma_job_runs_bounded(events: Seq<JobEvent>)
    requires
        job_trace_allowed(JobStage::Downloading, 1, events),
    ensures
        ({
            let t = job_trace(JobStage::Downloading, 1, 1, 0, events);
            &&& t.2 <= MAX_RETRIES
            &&& t.3 <= 1
            &&& (t.3 == 1 <==> job_reported(t.0))
        }),
{
    lemma_job_trace_inv(JobStage::Downloading, 1, 1, 0, events);
}

/// The life of one job: up to `MAX_RETRIES` attempts at downloading and
/// uploading it, then one report.
pub struct JobRun {
    pub file_id: i64,
    pub label: String,
    pub dest_path: String,
    /// The current attempt, from 1 to `MAX_RETRIES`.
    pub attempt: u32,
    /// The error of the last failed attempt.
    pub last_err: Option<String>,
    /// The size of the last download.
    pub file_size: u64,
    pub stage: JobStage,
}

/// A run and its first effects as a job begins: attempt 1, shown as
/// downloading under its label, and the download is asked for.
pub open spec fn job_started(job: FileJob, run: JobRun, effects: Seq<JobEffect>) -> bool {
    &&& run.wf()
    &&& run.file_id == job.file_id
    &&& run.label@ == job_label_spec(job.dest_path@)
    &&& run.dest_path@ == job.dest_path@
    &&& run.attempt == 1
    &&& run.last_err is None
    &&& run.file_size == 0
    &&& run.stage == JobStage::Downloading
    &&& effects.len() == 2
    &&& is_started(effects[0], job.file_id, run.label@, TransferPhase::Download)
    &&& effects[1] is Download
    &&& count_kind(effects, false) == 1
    &&& count_kind(effects, true) == 0
}

impl JobRun {
    /// The run's invariant: the attempt number stays within `1..=MAX_RETRIES`.
    pub open spec fn wf(&self) -> bool {
        1 <= self.attempt <= MAX_RETRIES
    }

    /// Starts a job: it is shown as downloading, and the download begins.
    pub fn start(job: &FileJob) -> (res: (JobRun, Vec<JobEffect>))
        requires
            label_cuttable(job.dest_path@),
        ensures
            res.0.wf(),
            res.0.file_id == job.file_id,
            res.0.label@ == job_label_spec(job.dest_path@),
            res.0.dest_path@ == job.dest_path@,
            res.0.attempt == 1,
            res.0.last_err is None,
            res.0.file_size == 0,
            res.0.stage == JobStage::Downloading,
            res.1.len() == 2,
            is_started(res.1[0], job.file_id, res.0.label@, TransferPhase::Download),
            res.1[1] is Download,
            count_kind(res.1@, false) == 1,
            count_kind(res.1@, true) == 0,
    {
        let label = job_label(job.dest_path.as_str());
        let mut effects: Vec<JobEffect> = Vec::new();
        effects.push(
            JobEffect::Notify(
                UiMessage::TransferStarted {
                    file_id: job.file_id,
                    label: label.clone(),
                    phase: TransferPhase::Download,
                },
            ),
        );
        effects.push(JobEffect::Download);
        proof {
            reveal_with_fuel(count_kind, 3);
        }
        let run = JobRun {
            file_id: job.file_id,
            label,
            dest_path: job.dest_path.clone(),
            attempt: 1,
            last_err: None,
            file_size: 0,
            stage: JobStage::Downloading,
        };
        (run, effects)
    }

    /// The download of `size` bytes succeeded: it is shown as uploading, and
    /// the upload begins.
    pub fn on_downloaded(&mut self, size: u64) -> (effects: Vec<JobEffect>)
        requires
            old(self).wf(),
            old(self).stage == JobStage::Downloading,
        ensures
            final(self).wf(),
            final(self).file_size == size,
            final(self).stage == JobStage::Uploading,
            final(self).attempt == old(self).attempt,
            final(self).file_id == old(self).file_id,
            final(self).label == old(self).label,
            final(self).dest_path == old(self).dest_path,
            final(self).last_err == old(self).last_err,
            effects.len() == 2,
            is_started(effects[0], old(self).file_id, old(self).label@, TransferPhase::Upload),
            effects[1] is Upload,
            (final(self).stage, final(self).attempt) == job_next(
                old(self).stage,
                old(self).attempt,
                JobEvent::Downloaded,
            ),
            count_kind(effects@, false) == job_downloads(
                old(self).stage,
                old(self).attempt,
                JobEvent::Downloaded,
            ),
            count_kind(effects@, true) == job_reports(
                old(self).stage,
                old(self).attempt,
                JobEvent::Downloaded,
            ),
    {
        self.file_size = size;
        self.stage = JobStage::Uploading;
        let mut effects: Vec<JobEffect> = Vec::new();
        effects.push(
            JobEffect::Notify(
                UiMessage::TransferStarted {
                    file_id: self.file_id,
                    label: self.label.clone(),
                    phase: TransferPhase::Upload,
                },
            ),
        );
        effects.push(JobEffect::Upload);
        proof {
            reveal_with_fuel(count_kind, 3);
        }
        effects
    }

    /// The download or the upload failed with the error text `err`. The local
    /// file is removed; a further attempt follows after a pause growing with
    /// the attempt number, or, after the last attempt, the job is given up and
    /// reported as failed.
    pub fn on_attempt_failed(&mut self, err: String) -> (effects: Vec<JobEffect>)
        requires
            old(self).wf(),
            old(self).stage == JobStage::Downloading || old(self).stage == JobStage::Uploading,
            old(self).attempt < MAX_RETRIES ==> cuttable(err@, 72),
            old(self).attempt == MAX_RETRIES ==> cuttable(err@, 500),
        ensures
            final(self).wf(),
            final(self).file_id == old(self).file_id,
            final(self).label == old(self).label,
            final(self).dest_path == old(self).dest_path,
            final(self).file_size == old(self).file_size,
            final(self).last_err == Some(err),
            effects.len() >= 1,
            effects[0] is RemoveLocalFile,
            (final(self).stage, final(self).attempt) == job_next(
                old(self).stage,
                old(self).attempt,
                JobEvent::AttemptFailed,
            ),
            count_kind(effects@, false) == job_downloads(
                old(self).stage,
                old(self).attempt,
                JobEvent::AttemptFailed,
            ),
            count_kind(effects@, true) == job_reports(
                old(self).stage,
                old(self).attempt,
                JobEvent::AttemptFailed,
            ),
            old(self).attempt < MAX_RETRIES ==> {
                &&& final(self).attempt == old(self).attempt + 1
                &&& final(self).stage == JobStage::Downloading
                &&& effects.len() == 5
                &&& effects[1] matches JobEffect::Notify(UiMessage::LogLine(t)) && t@ == retry_line(
                    old(self).attempt,
                    old(self).label@,
                    err@,
                )
                &&& effects[2] == (JobEffect::Sleep {
                    secs: (RETRY_DELAY_SECS * old(self).attempt) as u64,
                })
                &&& is_started(
                    effects[3],
                    old(self).file_id,
                    old(self).label@,
                    TransferPhase::Download,
                )
                &&& effects[4] is Download
            },
            old(self).attempt == MAX_RETRIES ==> {
                &&& final(self).attempt == old(self).attempt
                &&& final(self).stage == JobStage::ReportingFailed
                &&& effects.len() == 4
                &&& effects[1] matches JobEffect::Notify(UiMessage::TransferDone { file_id: f })
                    && f == old(self).file_id
                &&& effects[2] matches JobEffect::Notify(UiMessage::JobFailed { file_id: f, error: e })
                    && f == old(self).file_id && e@ == err@
                &&& effects[3] matches JobEffect::Report { status, bytes_downloaded, error: Some(e) }
                    && status == ReportStatus::Failed && bytes_downloaded is None && e@ == cut_bytes(
                    err@,
                    500,
                )
            },
    {
        let mut effects: Vec<JobEffect> = Vec::new();
        effects.push(JobEffect::RemoveLocalFile);
        if self.attempt < MAX_RETRIES {
            let short = cut_to_bytes(err.as_str(), 72);
            let mut line = owned("RETRY ");
            let a = decimal_string(self.attempt as u64);
            push_str(&mut line, a.as_str());
            push_str(&mut line, "/");
            let m = decimal_string(MAX_RETRIES as u64);
            push_str(&mut line, m.as_str());
            push_str(&mut line, " ");
            push_str(&mut line, self.label.as_str());
            push_str(&mut line, " (");
            push_str(&mut line, short.as_str());
            push_str(&mut line, ")");
            effects.push(JobEffect::Notify(UiMessage::LogLine(line)));
            effects.push(JobEffect::Sleep { secs: RETRY_DELAY_SECS * (self.attempt as u64) });
            self.attempt = self.attempt + 1;
            self.stage = JobStage::Downloading;
            effects.push(
                JobEffect::Notify(
                    UiMessage::TransferStarted {
                        file_id: self.file_id,
                        label: self.label.clone(),
                        phase: TransferPhase::Download,
                    },
                ),
            );
            effects.push(JobEffect::Download);
        } else {
            let reported = cut_to_bytes(err.as_str(), 500);
            effects.push(JobEffect::Notify(UiMessage::TransferDone { file_id: self.file_id }));
            effects.push(
                JobEffect::Notify(UiMessage::JobFailed { file_id: self.file_id, error: err.clone() }),
            );
            effects.push(
                JobEffect::Report {
                    status: ReportStatus::Failed,
                    bytes_downloaded: None,
                    error: Some(reported),
                },
            );
            self.stage = JobStage::ReportingFailed;
        }
        self.last_err = Some(err);
        proof {
            reveal_with_fuel(count_kind, 6);
        }
        effects
    }

    /// Starts a job only when the worker is signed in. Without a token the job
    /// is left alone: nothing is shown and nothing is fetched. With one, the run
    /// begins as `start` begins it, and the token comes back for its requests.
    pub fn start_signed_in(job: &FileJob, token: Option<String>) -> (res: Option<
        (JobRun, Vec<JobEffect>, String),
    >)
        requires
            label_cuttable(job.dest_path@),
        ensures
            res is None <==> token is None,
            res matches Some((run, effects, t)) ==> token == Some(t) && job_started(
                *job,
                run,
                effects@,
            ),
    {
        match token {
            None => None,
            Some(t) => {
                let (run, effects) = JobRun::start(job);
                Some((run, effects, t))
            },
        }
    }

    /// The upload succeeded: the job is shown as completed, its local file is
    /// removed, and it is reported as completed with the downloaded size.
    pub fn on_uploaded(&mut self) -> (effects: Vec<JobEffect>)
        requires
            old(self).wf(),
            old(self).stage == JobStage::Uploading,
        ensures
            final(self).wf(),
            final(self).stage == JobStage::ReportingCompleted,
            final(self).attempt == old(self).attempt,
            final(self).file_id == old(self).file_id,
            final(self).label == old(self).label,
            final(self).file_size == old(self).file_size,
            final(self).dest_path == old(self).dest_path,
            final(self).last_err == old(self).last_err,
            effects.len() == 4,
            effects[0] matches JobEffect::Notify(UiMessage::TransferDone { file_id: f }) && f == old(
                self,
            ).file_id,
            effects[1] matches JobEffect::Notify(
                UiMessage::JobCompleted { file_id: f, dest_path: d, bytes: b },
            ) && f == old(self).file_id && d@ == old(self).dest_path@ && b == old(self).file_size,
            effects[2] is RemoveLocalFile,
            effects[3] matches JobEffect::Report { status, bytes_downloaded, error } && status
                == ReportStatus::Completed && bytes_downloaded == Some(old(self).file_size)
                && error is None,
            (final(self).stage, final(self).attempt) == job_next(
                old(self).stage,
                old(self).attempt,
                JobEvent::Uploaded,
            ),
            count_kind(effects@, false) == job_downloads(
                old(self).stage,
                old(self).attempt,
                JobEvent::Uploaded,
            ),
            count_kind(effects@, true) == job_reports(
                old(self).stage,
                old(self).attempt,
                JobEvent::Uploaded,
            ),
    {
        let mut effects: Vec<JobEffect> = Vec::new();
        effects.push(JobEffect::Notify(UiMessage::TransferDone { file_id: self.file_id }));
        effects.push(
            JobEffect::Notify(
                UiMessage::JobCompleted {
                    file_id: self.file_id,
                    dest_path: self.dest_path.clone(),
                    bytes: self.file_size,
                },
            ),
        );
        effects.push(JobEffect::RemoveLocalFile);
        effects.push(
            JobEffect::Report {
                status: ReportStatus::Completed,
                bytes_downloaded: Some(self.file_size),
                error: None,
            },
        );
        self.stage = JobStage::ReportingCompleted;
        proof {
            reveal_with_fuel(count_kind, 5);
        }
        effects
    }

    /// The report went out (`Ok`) or failed with the error text in `Err`. The
    /// job is counted; a completed job whose report failed is logged.
    pub fn on_reported(&mut self, outcome: Result<(), String>, stats: &mut WorkerStats) -> (effects:
        Vec<JobEffect>)
        requires
            old(self).wf(),
            old(self).stage == JobStage::ReportingCompleted || old(self).stage
                == JobStage::ReportingFailed,
            old(self).stage == JobStage::ReportingCompleted ==> {
                &&& old(stats).jobs_completed < u64::MAX
                &&& old(stats).bytes_downloaded + old(self).file_size <= u64::MAX
                &&& (outcome matches Err(e) ==> cuttable(e@, 120))
            },
            old(self).stage == JobStage::ReportingFailed ==> old(stats).jobs_failed < u64::MAX,
        ensures
            final(self).wf(),
            final(self).stage == JobStage::Finished,
            final(self).file_id == old(self).file_id,
            (final(self).stage, final(self).attempt) == job_next(
                old(self).stage,
                old(self).attempt,
                JobEvent::Reported,
            ),
            count_kind(effects@, false) == 0,
            count_kind(effects@, true) == 0,
            old(self).stage == JobStage::ReportingFailed ==> {
                &&& effects.len() == 0
                &&& final(stats).jobs_failed == old(stats).jobs_failed + 1
                &&& final(stats).jobs_completed == old(stats).jobs_completed
                &&& final(stats).bytes_downloaded == old(stats).bytes_downloaded
                &&& final(stats).bytes_uploaded == old(stats).bytes_uploaded
            },
            old(self).stage == JobStage::ReportingCompleted ==> {
                &&& final(stats).jobs_completed == old(stats).jobs_completed + 1
                &&& final(stats).bytes_downloaded == old(stats).bytes_downloaded + old(self).file_size
                &&& final(stats).jobs_failed == old(stats).jobs_failed
                &&& final(stats).bytes_uploaded == old(stats).bytes_uploaded
                &&& (outcome is Ok ==> effects.len() == 0)
                &&& (outcome matches Err(e) ==> (effects.len() == 1 && is_notify_log(
                    effects[0],
                    report_delayed_line(old(self).label@, e@),
                )))
            },
    {
        let mut effects: Vec<JobEffect> = Vec::new();
        if self.stage == JobStage::ReportingFailed {
            stats.record_failed();
        } else {
            if let Err(e) = outcome {
                let short = cut_to_bytes(e.as_str(), 120);
                let mut line = owned(self.label.as_str());
                push_str(&mut line, ": uploaded but report delayed (");
                push_str(&mut line, short.as_str());
                push_str(&mut line, ")");
                effects.push(JobEffect::Notify(UiMessage::LogLine(line)));
            }
            stats.record_completed(self.file_size);
        }
        self.stage = JobStage::Finished;
        proof {
            reveal_with_fuel(count_kind, 2);
        }
        effects
    }
}

} // verus!

verus! {

/// A job's label never takes more than 60 bytes.
pub proof fn lemma_label_fits(dest: Seq<char>)
    requires
        label_cuttable(dest),
    ensures
        byte_len(job_label_spec(dest)) <= 60,
{
    if byte_len(dest) > 60 {
        let n = byte_len(dest) - 57;
        crate::text::lemma_byte_suffix_len(dest, n);
        crate::text::lemma_encode_concat("..."@, byte_suffix(dest, n));
        reveal_strlit("...");
        let dots = "..."@;
        assert(dots.len() == 3 && dots[0] == '.' && dots[1] == '.' && dots[2] == '.');
        assert(dots.drop_first().drop_first().drop_first().len() == 0);
        reveal_with_fuel(encode_utf8, 4);
        assert(encode_utf8(dots).len() == 3);
    }
}

} // verus!
