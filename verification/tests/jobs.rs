use minerva_worker::net::client::{HttpOutcome, RetryDecision, WorkerError};
use minerva_worker::net::jobs::{check_fetch_response, jobs_url, report_job_step, report_url};

fn reply(status: u16, body: &str) -> HttpOutcome {
    HttpOutcome::Response { status, body: body.to_string() }
}

#[test]
fn job_endpoints() {
    assert_eq!(jobs_url("https://api.x"), "https://api.x/api/jobs");
    assert_eq!(report_url("https://api.x"), "https://api.x/api/jobs/report");
}

#[test]
fn fetch_answers() {
    assert_eq!(check_fetch_response(200, "{\"jobs\":[]}".into()).unwrap(), "{\"jobs\":[]}");
    assert!(matches!(check_fetch_response(401, "".into()), Err(WorkerError::AuthExpired)));
    assert!(matches!(check_fetch_response(426, "old".into()), Err(WorkerError::UpgradeRequired(m)) if m == "old"));
    assert!(matches!(check_fetch_response(500, "boom".into()), Err(WorkerError::ServerError(500, b)) if b == "boom"));
}

#[test]
fn report_waits_for_finalize() {
    let body = "{\"detail\":\"Upload NOT FINALIZED yet\"}";
    assert!(matches!(report_job_step("completed", 1, reply(409, body)), RetryDecision::Pause { millis: 350 }));
    assert!(matches!(report_job_step("completed", 17, reply(409, body)), RetryDecision::Pause { millis: 1950 }));
    assert!(matches!(report_job_step("completed", 18, reply(409, body)), RetryDecision::Pause { millis: 2000 }));
    assert!(matches!(report_job_step("completed", 20, reply(409, body)), RetryDecision::Fail(WorkerError::ServerError(409, _))));
}

#[test]
fn report_conflict_without_finalize() {
    assert!(matches!(report_job_step("completed", 1, reply(409, "{\"detail\":\"conflict\"}")), RetryDecision::Fail(WorkerError::ServerError(409, _))));
    assert!(matches!(report_job_step("failed", 1, reply(409, "{\"detail\":\"upload pending\"}")), RetryDecision::Fail(WorkerError::ServerError(409, _))));
}

#[test]
fn report_retries_and_success() {
    assert!(matches!(report_job_step("failed", 1, reply(502, "")), RetryDecision::Backoff { cap_secs: 20 }));
    assert!(matches!(report_job_step("failed", 20, reply(502, "x")), RetryDecision::Fail(WorkerError::ServerError(502, b)) if b == "x"));
    assert!(matches!(report_job_step("completed", 3, reply(200, "")), RetryDecision::Done(())));
    assert!(matches!(report_job_step("completed", 3, reply(401, "")), RetryDecision::Fail(WorkerError::AuthExpired)));
    let err = reqwest::Client::new().get("::").build().unwrap_err();
    assert!(matches!(report_job_step("completed", 20, HttpOutcome::Transport(err)), RetryDecision::Fail(WorkerError::Http(_))));
    let err = reqwest::Client::new().get("::").build().unwrap_err();
    assert!(matches!(report_job_step("completed", 19, HttpOutcome::Transport(err)), RetryDecision::Backoff { cap_secs: 20 }));
}
