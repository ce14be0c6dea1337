use minerva_worker::net::client::WorkerError;
use minerva_worker::net::jobs::FileJob;
use minerva_worker::ui::messages::{TransferPhase, UiMessage};
use minerva_worker::worker::config::{Config, WorkerStats};
use minerva_worker::worker::engine::{
    fetch_count, job_label, on_fetch_error, producer_plan, queue_capacity, startup_messages,
    FetchFailure, JobEffect, JobRun, JobStage, ProducerAction, ProducerState, ReportStatus,
    SeenJobs,
};

fn job(dest: &str) -> FileJob {
    FileJob { file_id: 9, url: "https://h/f".into(), dest_path: dest.into(), size: None }
}

fn stats() -> WorkerStats {
    WorkerStats::default()
}

#[test]
fn queue_and_fetch_sizes() {
    assert_eq!(queue_capacity(3), 6);
    assert_eq!(fetch_count(10, 4, 0), 4);
    assert_eq!(fetch_count(2, 4, 0), 2);
    assert_eq!(fetch_count(10, 4, 3), 1);
    assert_eq!(fetch_count(10, 4, 4), 1);
    assert_eq!(fetch_count(10, 20, 17), 3);
    assert_eq!(fetch_count(0, 4, 0), 0);
}

#[test]
fn producer_plans() {
    assert!(matches!(producer_plan(false, 0, 4, 2, 10, Some("t".into())), ProducerAction::Exit));
    assert!(matches!(producer_plan(true, 2, 4, 2, 10, Some("t".into())), ProducerAction::WaitForRoom { millis: 500 }));
    assert!(matches!(producer_plan(true, 1, 4, 2, 10, None), ProducerAction::Stop(UiMessage::LogLine(t)) if t == "No token available. Please login."));
    assert!(matches!(producer_plan(true, 1, 4, 2, 10, Some("t".into())), ProducerAction::Fetch { token, count: 3 } if token == "t"));
}

#[test]
fn empty_batches_warn_once() {
    let mut p = ProducerState::new();
    let first = p.on_empty_batch();
    assert_eq!(first.len(), 2);
    assert!(matches!(&first[0], UiMessage::LogLine(t) if t == "No jobs available, waiting..."));
    assert!(matches!(&first[1], UiMessage::StatusText(t) if t == "Waiting for jobs..."));
    assert!(p.on_empty_batch().is_empty());
    p.on_jobs_received();
    assert_eq!(p.on_empty_batch().len(), 2);
}

#[test]
fn fetch_errors() {
    assert!(matches!(on_fetch_error(WorkerError::AuthExpired), FetchFailure::Stop(UiMessage::LogLine(t)) if t == "Token expired. Please login again."));
    assert!(matches!(on_fetch_error(WorkerError::UpgradeRequired("v2".into())), FetchFailure::Stop(UiMessage::LogLine(t)) if t == "Upgrade required: v2"));
    assert!(matches!(on_fetch_error(WorkerError::ServerError(500, "x".into())), FetchFailure::Retry(UiMessage::LogLine(t)) if t == "Server error: Server error 500: x. Retrying..."));
}

#[test]
fn seen_jobs_once() {
    let mut s = SeenJobs::new();
    assert!(s.mark_seen(5));
    assert!(!s.mark_seen(5));
    assert!(s.contains(5));
    s.release(5);
    assert!(!s.contains(5));
    assert!(s.mark_seen(5));
}

#[test]
fn labels() {
    assert_eq!(job_label("short/path.txt"), "short/path.txt");
    let long = "x".repeat(61);
    let label = job_label(&long);
    assert_eq!(label, format!("...{}", "x".repeat(57)));
    assert_eq!(label.len(), 60);
    let sixty = "y".repeat(60);
    assert_eq!(job_label(&sixty), sixty);
}

#[test]
fn startup_lines() {
    let mut c = Config::default();
    c.concurrency = 3;
    let m = startup_messages(&c);
    assert!(matches!(&m[0], UiMessage::LogLine(t) if t == "Server:      https://api.minerva-archive.org"));
    assert!(matches!(&m[1], UiMessage::LogLine(t) if t == "Upload API:  https://gate.minerva-archive.org"));
    assert!(matches!(&m[2], UiMessage::LogLine(t) if t == "Concurrency: 3"));
}

#[test]
fn job_succeeds_first_time() {
    let (mut run, fx) = JobRun::start(&job("a/b.bin"));
    assert!(matches!(&fx[0], JobEffect::Notify(UiMessage::TransferStarted { file_id: 9, label, phase: TransferPhase::Download }) if label == "a/b.bin"));
    assert!(matches!(fx[1], JobEffect::Download));
    let fx = run.on_downloaded(1234);
    assert!(matches!(&fx[0], JobEffect::Notify(UiMessage::TransferStarted { phase: TransferPhase::Upload, .. })));
    assert!(matches!(fx[1], JobEffect::Upload));
    let fx = run.on_uploaded();
    assert!(matches!(fx[0], JobEffect::Notify(UiMessage::TransferDone { file_id: 9 })));
    assert!(matches!(&fx[1], JobEffect::Notify(UiMessage::JobCompleted { file_id: 9, dest_path, bytes: 1234 }) if dest_path == "a/b.bin"));
    assert!(matches!(fx[2], JobEffect::RemoveLocalFile));
    assert!(matches!(&fx[3], JobEffect::Report { status: ReportStatus::Completed, bytes_downloaded: Some(1234), error: None }));
    let mut st = stats();
    let fx = run.on_reported(Ok(()), &mut st);
    assert!(fx.is_empty());
    assert_eq!(st.jobs_completed, 1);
    assert_eq!(st.bytes_downloaded, 1234);
    assert!(run.stage == JobStage::Finished);
}

#[test]
fn job_retries_then_fails() {
    let (mut run, _) = JobRun::start(&job("f"));
    let fx = run.on_attempt_failed("HTTP error: boom".into());
    assert_eq!(fx.len(), 5);
    assert!(matches!(fx[0], JobEffect::RemoveLocalFile));
    assert!(matches!(&fx[1], JobEffect::Notify(UiMessage::LogLine(t)) if t == "RETRY 1/3 f (HTTP error: boom)"));
    assert!(matches!(fx[2], JobEffect::Sleep { secs: 5 }));
    assert!(matches!(fx[4], JobEffect::Download));
    let _ = run.on_downloaded(10);
    let fx = run.on_attempt_failed("upload".into());
    assert!(matches!(fx[2], JobEffect::Sleep { secs: 10 }));
    assert_eq!(run.attempt, 3);
    let fx = run.on_attempt_failed("last".into());
    assert_eq!(fx.len(), 4);
    assert!(matches!(fx[1], JobEffect::Notify(UiMessage::TransferDone { file_id: 9 })));
    assert!(matches!(&fx[2], JobEffect::Notify(UiMessage::JobFailed { file_id: 9, error }) if error == "last"));
    assert!(matches!(&fx[3], JobEffect::Report { status: ReportStatus::Failed, bytes_downloaded: None, error: Some(e) } if e == "last"));
    let mut st = stats();
    let fx = run.on_reported(Err("ignored".into()), &mut st);
    assert!(fx.is_empty());
    assert_eq!(st.jobs_failed, 1);
    assert_eq!(st.jobs_completed, 0);
}

#[test]
fn retry_line_cuts_long_errors() {
    let (mut run, _) = JobRun::start(&job("f"));
    let err = "e".repeat(100);
    let fx = run.on_attempt_failed(err);
    assert!(matches!(&fx[1], JobEffect::Notify(UiMessage::LogLine(t)) if *t == format!("RETRY 1/3 f ({})", "e".repeat(72))));
}

#[test]
fn final_error_is_cut_for_the_report() {
    let (mut run, _) = JobRun::start(&job("f"));
    run.on_attempt_failed("a".into());
    run.on_attempt_failed("b".into());
    let fx = run.on_attempt_failed("z".repeat(600));
    assert!(matches!(&fx[2], JobEffect::Notify(UiMessage::JobFailed { error, .. }) if error.len() == 600));
    assert!(matches!(&fx[3], JobEffect::Report { error: Some(e), .. } if e.len() == 500));
}

#[test]
fn delayed_report_is_logged() {
    let (mut run, _) = JobRun::start(&job("dir/file"));
    run.on_downloaded(3);
    run.on_uploaded();
    let mut st = stats();
    let fx = run.on_reported(Err("Retries exhausted: x".into()), &mut st);
    assert!(matches!(&fx[0], JobEffect::Notify(UiMessage::LogLine(t)) if t == "dir/file: uploaded but report delayed (Retries exhausted: x)"));
    assert_eq!(st.jobs_completed, 1);
    assert_eq!(st.bytes_downloaded, 3);
}

#[test]
fn job_needs_a_token() {
    let j = job("a/b.txt");
    assert!(JobRun::start_signed_in(&j, None).is_none());
    let (run, effects, token) = JobRun::start_signed_in(&j, Some("tok".into())).unwrap();
    assert_eq!(token, "tok");
    assert_eq!(run.file_id, 9);
    assert_eq!(run.attempt, 1);
    assert_eq!(run.label, "a/b.txt");
    assert!(run.stage == JobStage::Downloading);
    assert_eq!(effects.len(), 2);
    assert!(matches!(&effects[0], JobEffect::Notify(UiMessage::TransferStarted { file_id: 9, label, phase: TransferPhase::Download }) if label == "a/b.txt"));
    assert!(matches!(&effects[1], JobEffect::Download));
}

#[test]
fn stopped_worker_drops_taken_jobs() {
    let mut s = SeenJobs::new();
    assert!(s.mark_seen(3));
    assert!(s.mark_seen(4));
    assert!(!s.take_for_work(3, false));
    assert!(!s.contains(3));
    assert!(s.take_for_work(4, true));
    assert!(s.contains(4));
    assert!(s.mark_seen(3));
    assert!(!s.mark_seen(4));
}

#[test]
fn in_flight_ids_stay_distinct() {
    let mut s = SeenJobs::new();
    let mut in_flight: Vec<i64> = Vec::new();
    for id in [1i64, 2, 1, 3, 2] {
        if s.mark_seen(id) {
            in_flight.push(id);
        }
    }
    assert_eq!(in_flight, vec![1, 2, 3]);
    s.release(2);
    in_flight.retain(|x| *x != 2);
    for id in [2i64, 3] {
        if s.mark_seen(id) {
            in_flight.push(id);
        }
    }
    assert_eq!(in_flight, vec![1, 3, 2]);
}

#[test]
fn upload_success_keeps_path_and_last_error() {
    let (mut run, _) = JobRun::start(&job("x/y.bin"));
    let _ = run.on_downloaded(5);
    let _ = run.on_attempt_failed("first".into());
    let _ = run.on_downloaded(6);
    let _ = run.on_uploaded();
    assert_eq!(run.dest_path, "x/y.bin");
    assert_eq!(run.last_err.as_deref(), Some("first"));
    assert_eq!(run.file_size, 6);
    assert_eq!(run.attempt, 2);
}
