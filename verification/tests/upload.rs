use minerva_worker::net::client::{HttpOutcome, RetryDecision, UploadStage, WorkerError};
use minerva_worker::net::upload::{plan_upload, start_session_step, to_hex_lower, upload_url};

fn session_reply(status: u16, body: &str) -> HttpOutcome {
    HttpOutcome::Response { status, body: body.to_string() }
}

#[test]
fn empty_file_plan() {
    let p = plan_upload(&[]);
    assert!(p.chunks.is_empty());
    assert_eq!(p.sha256_hex, "e3b0c44298fc1c149afbf4c8996fb92427ae41e4649b934ca495991b7852b855");
}

#[test]
fn small_file_plan() {
    let p = plan_upload(b"abc");
    assert_eq!(p.chunks, vec![(0, 3)]);
    assert_eq!(p.sha256_hex, "ba7816bf8f01cfea414140de5dae2223b00361a396177a9cb410ff61f20015ad");
}

#[test]
fn large_file_is_chunked() {
    let size = 8 * 1024 * 1024;
    let data = vec![7u8; 2 * size + 5];
    let p = plan_upload(&data);
    assert_eq!(p.chunks, vec![(0, size), (size, 2 * size), (2 * size, 2 * size + 5)]);
    assert_eq!(p.sha256_hex.len(), 64);
}

#[test]
fn hex_is_lower_case() {
    assert_eq!(to_hex_lower(&vec![0x00, 0x0f, 0xab, 0xff]), "000fabff");
}

#[test]
fn upload_endpoints() {
    assert_eq!(upload_url("https://g", 42, UploadStage::Start), "https://g/api/upload/42/start");
    assert_eq!(upload_url("https://g", -5, UploadStage::Chunk), "https://g/api/upload/-5/chunk");
    assert_eq!(upload_url("https://g", 0, UploadStage::Finish), "https://g/api/upload/0/finish");
    assert_eq!(upload_url("h", i64::MIN, UploadStage::Start), "h/api/upload/-9223372036854775808/start");
}

#[test]
fn session_id_is_read() {
    assert!(matches!(start_session_step(1, session_reply(200, "{\"session_id\":\"s1\"}")), RetryDecision::Done(s) if s == "s1"));
    assert!(matches!(start_session_step(1, session_reply(200, "{}")), RetryDecision::Fail(WorkerError::Other(m)) if m == "Missing session_id"));
    assert!(matches!(start_session_step(1, session_reply(200, "{\"session_id\":7}")), RetryDecision::Fail(WorkerError::Other(_))));
    assert!(matches!(start_session_step(1, session_reply(200, "not json")), RetryDecision::Fail(WorkerError::Json(_))));
    assert!(matches!(start_session_step(12, session_reply(503, "")), RetryDecision::Fail(WorkerError::RetryExhausted(m)) if m == "upload start failed (503)"));
}
