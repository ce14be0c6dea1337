use minerva_worker::net::client::{
    auth_headers, check_upgrade_required, exhausted_error, is_retryable, response_detail,
    upload_attempt, HttpOutcome, RetryDecision, UploadStage, WorkerError, RETRIABLE_STATUS_CODES,
};

fn transport_error() -> reqwest::Error {
    reqwest::Client::new().get("not a url").build().unwrap_err()
}

fn answer(status: u16, body: &str) -> HttpOutcome {
    HttpOutcome::Response { status, body: body.to_string() }
}

#[test]
fn retryable_statuses() {
    for code in RETRIABLE_STATUS_CODES {
        assert!(is_retryable(code));
    }
    for code in [200u16, 201, 400, 401, 404, 409, 426, 501, 505] {
        assert!(!is_retryable(code));
    }
}

#[test]
fn headers_carry_token_and_version() {
    let h = auth_headers("tok");
    assert_eq!(h.len(), 2);
    assert_eq!(h[0], ("Authorization".to_string(), "Bearer tok".to_string()));
    assert_eq!(h[1], ("X-Minerva-Worker-Version".to_string(), "1.2.4".to_string()));
}

#[test]
fn upgrade_required_only_on_426() {
    assert!(check_upgrade_required(200, "anything").is_ok());
    assert!(check_upgrade_required(400, "{\"detail\":\"x\"}").is_ok());
}

#[test]
fn upgrade_required_uses_json_detail() {
    match check_upgrade_required(426, "{\"detail\":\"too old\"}") {
        Err(WorkerError::UpgradeRequired(m)) => assert_eq!(m, "too old"),
        other => panic!("unexpected {:?}", other),
    }
}

#[test]
fn upgrade_required_falls_back_to_body() {
    match check_upgrade_required(426, "  please upgrade \n") {
        Err(WorkerError::UpgradeRequired(m)) => assert_eq!(m, "please upgrade"),
        other => panic!("unexpected {:?}", other),
    }
    match check_upgrade_required(426, " \n ") {
        Err(WorkerError::UpgradeRequired(m)) => assert_eq!(m, "Worker update required"),
        other => panic!("unexpected {:?}", other),
    }
    match check_upgrade_required(426, "{\"detail\": 5}") {
        Err(WorkerError::UpgradeRequired(m)) => assert_eq!(m, "{\"detail\": 5}"),
        other => panic!("unexpected {:?}", other),
    }
}

#[test]
fn detail_of_error_body() {
    assert_eq!(response_detail("{\"detail\":\"Upload not finalized\"}"), "Upload not finalized");
    assert_eq!(response_detail("  plain text \r\n"), "plain text");
    assert_eq!(response_detail("{}"), "{}");
    assert_eq!(response_detail("[\"detail\"]"), "[\"detail\"]");
}

#[test]
fn error_messages() {
    assert_eq!(WorkerError::AuthExpired.message(), "Token expired. Please log in again.");
    assert_eq!(WorkerError::ServerError(503, "busy".into()).message(), "Server error 503: busy");
    assert_eq!(WorkerError::RetryExhausted("x".into()).message(), "Retries exhausted: x");
    assert_eq!(WorkerError::UpgradeRequired("u".into()).message(), "Upgrade required: u");
    assert_eq!(WorkerError::Other("plain".into()).message(), "plain");
    let json = serde_json::from_str::<serde_json::Value>("{").unwrap_err();
    assert!(WorkerError::Json(json).message().starts_with("JSON error: "));
    let io = std::io::Error::new(std::io::ErrorKind::Other, "disk");
    assert_eq!(WorkerError::Io(io).message(), "IO error: disk");
    assert!(WorkerError::Http(transport_error()).message().starts_with("HTTP error: "));
}

#[test]
fn exhausted_messages() {
    match exhausted_error(UploadStage::Chunk, "503") {
        WorkerError::RetryExhausted(m) => assert_eq!(m, "upload chunk failed (503)"),
        other => panic!("unexpected {:?}", other),
    }
}

#[test]
fn upload_attempt_success_and_errors() {
    assert!(matches!(upload_attempt(UploadStage::Chunk, 1, answer(200, "ok")), RetryDecision::Done(b) if b == "ok"));
    assert!(matches!(upload_attempt(UploadStage::Chunk, 1, answer(401, "")), RetryDecision::Fail(WorkerError::AuthExpired)));
    assert!(matches!(upload_attempt(UploadStage::Chunk, 1, answer(426, "")), RetryDecision::Fail(WorkerError::UpgradeRequired(_))));
    assert!(matches!(upload_attempt(UploadStage::Finish, 1, answer(404, "gone")), RetryDecision::Fail(WorkerError::ServerError(404, b)) if b == "gone"));
}

#[test]
fn upload_attempt_retries_until_last() {
    assert!(matches!(upload_attempt(UploadStage::Start, 1, answer(503, "")), RetryDecision::Backoff { cap_secs: 25 }));
    assert!(matches!(upload_attempt(UploadStage::Chunk, 29, answer(503, "")), RetryDecision::Backoff { cap_secs: 20 }));
    match upload_attempt(UploadStage::Chunk, 30, answer(503, "")) {
        RetryDecision::Fail(WorkerError::RetryExhausted(m)) => assert_eq!(m, "upload chunk failed (503)"),
        _ => panic!("expected exhaustion"),
    }
    assert!(matches!(upload_attempt(UploadStage::Finish, 1, HttpOutcome::Transport(transport_error())), RetryDecision::Backoff { cap_secs: 20 }));
    match upload_attempt(UploadStage::Finish, 12, HttpOutcome::Transport(transport_error())) {
        RetryDecision::Fail(WorkerError::RetryExhausted(m)) => {
            assert!(m.starts_with("upload finish failed ("));
            assert!(m.ends_with(')'));
        }
        _ => panic!("expected exhaustion"),
    }
}
