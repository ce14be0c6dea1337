//! The three-stage chunked upload: opening a session, the chunks and their
//! digest, and closing the session.
use vstd::prelude::*;

use crate::net::client::{
    parse_json_string_member, retryable, upload_attempt, upload_attempt_ok, HttpOutcome,
    RetryDecision, UploadStage, WorkerError, UPLOAD_START_RETRIES,
};
use crate::net::client::json_string_member;
use crate::text::{owned, push_char};
use crate::worker::config::UPLOAD_CHUNK_SIZE;

verus! {

/// An attempt whose answer is a success: neither a 426, a 401, a retried
/// status nor another error status.
pub open spec fn answered_ok(outcome: HttpOutcome) -> bool {
    match outcome {
        HttpOutcome::Response { status, body } => status != 426 && status != 401 && !retryable(status)
            && status < 400,
        HttpOutcome::Transport(_) => false,
    }
}

/// What one attempt at opening an upload session decides: on success, the
/// `session_id` string of the JSON answer.
pub open spec fn start_attempt_ok(attempt: u32, outcome: HttpOutcome, res: RetryDecision<String>) -> bool {
    if answered_ok(outcome) {
        let body = outcome->body;
        match json_string_member(body@, "session_id"@) {
            None => res matches RetryDecision::Fail(WorkerError::Json(_)),
            Some(None) => res matches RetryDecision::Fail(WorkerError::Other(m)) && m@
                == "Missing session_id"@,
            Some(Some(id)) => res matches RetryDecision::Done(s) && s@ == id,
        }
    } else {
        upload_attempt_ok(UploadStage::Start, attempt, outcome, res)
    }
}

/// Judges one attempt at opening an upload session.
pub fn start_session_step(attempt: u32, outcome: HttpOutcome) -> (res: RetryDecision<String>)
    requires
        1 <= attempt <= UPLOAD_START_RETRIES,
    ensures
        start_attempt_ok(attempt, outcome, res),
{
    let ghost o = outcome;
    let d = upload_attempt(UploadStage::Start, attempt, outcome);
    match d {
        RetryDecision::Done(body) => {
            assert(answered_ok(o));
            match parse_json_string_member(body.as_str(), "session_id") {
                Err(e) => RetryDecision::Fail(WorkerError::Json(e)),
                Ok(Some(id)) => RetryDecision::Done(id),
                Ok(None) => RetryDecision::Fail(WorkerError::Other(owned("Missing session_id"))),
            }
        },
        other => {
            assert(!answered_ok(o));
            other
        },
    }
}

/// The chunks `[start, end)` of `n` bytes cut every `size` bytes, from `start` on.
pub open spec fn chunks_from(start: nat, n: nat, size: nat) -> Seq<(nat, nat)>
    decreases n - start,
{
    if start >= n || size == 0 {
        seq![]
    } else {
        let end = if start + size <= n {
            start + size
        } else {
            n
        };
        seq![(start, end)] + chunks_from(end, n, size)
    }
}

/// The SHA-256 digest of a byte string, as `sha2` computes it.
pub uninterp spec fn sha256(data: Seq<u8>) -> Seq<u8>;

/// Hashes `data` with SHA-256 (`<sha2::Sha256 as sha2::Digest>::digest`).
/// Claimed: the result is `sha256` of the bytes, and it is 32 bytes long.
#[verifier::external_body]
fn sha256_digest(data: &[u8]) -> (res: Vec<u8>)
    ensures
        res@ == sha256(data@),
        res@.len() == 32,
{
    <sha2::Sha256 as sha2::Digest>::digest(data).to_vec()
}

/// The lower-case hexadecimal digit for `d < 16`.
pub open spec fn hex_digit_char(d: nat) -> char {
    if d < 10 {
        ((48 + d) as u32) as char
    } else {
        ((87 + d) as u32) as char
    }
}

/// Lower-case hexadecimal text of a byte string, two digits per byte.
pub open spec fn hex_lower(b: Seq<u8>) -> Seq<char>
    decreases b.len(),
{
    if b.len() == 0 {
        seq![]
    } else {
        seq![hex_digit_char((b[0] / 16) as nat), hex_digit_char((b[0] % 16) as nat)] + hex_lower(
            b.drop_first(),
        )
    }
}

fn hex_char(d: u8) -> (c: char)
    requires
        d < 16,
    ensures
        c == hex_digit_char(d as nat),
{
    if d < 10 {
        (48u8 + d) as char
    } else {
        (87u8 + d) as char
    }
}

/// Hex text has two digits per byte.
pub proof fn lemma_hex_lower_len(b: Seq<u8>)
    ensures
        hex_lower(b).len() == 2 * b.len(),
    decreases b.len(),
{
    if b.len() > 0 {
        lemma_hex_lower_len(b.drop_first());
    }
}

/// Lower-case hexadecimal text of `b`.
pub fn to_hex_lower(b: &Vec<u8>) -> (res: String)
    ensures
        res@ == hex_lower(b@),
{
    let mut res = String::new();
    let mut i: usize = 0;
    assert(b@.subrange(0, b.len() as int) == b@);
    assert(res@ + hex_lower(b@) == hex_lower(b@));
    while i < b.len()
        invariant
            i <= b.len(),
            res@ + hex_lower(b@.subrange(i as int, b.len() as int)) == hex_lower(b@),
        decreases b.len() - i,
    {
        let x = b[i];
        assert(b@.subrange(i as int, b.len() as int).drop_first() == b@.subrange(
            i + 1,
            b.len() as int,
        ));
        push_char(&mut res, hex_char(x / 16));
        push_char(&mut res, hex_char(x % 16));
        i += 1;
    }
    assert(b@.subrange(b.len() as int, b.len() as int) == Seq::<u8>::empty());
    res
}

/// How a file's bytes are sent: the chunk bounds and the digest announced at the end.
pub struct UploadPlan {
    /// `[start, end)` of each chunk, in order; the progress after a chunk is its end.
    pub chunks: Vec<(usize, usize)>,
    /// The lower-case hex SHA-256 of the whole file.
    pub sha256_hex: String,
}

/// Whether `v` holds, in order, the pairs of `s`.
pub open spec fn bounds_are(v: Seq<(usize, usize)>, s: Seq<(nat, nat)>) -> bool {
    &&& v.len() == s.len()
    &&& forall|k: int| 0 <= k < v.len() ==> (#[trigger] v[k]).0 == s[k].0 && v[k].1 == s[k].1
}

/// Cuts `data` into upload chunks of `UPLOAD_CHUNK_SIZE` bytes (the last one
/// shorter) and computes the digest that the finishing request names.
pub fn plan_upload(data: &[u8]) -> (plan: UploadPlan)
    ensures
        bounds_are(plan.chunks@, chunks_from(0, data@.len(), UPLOAD_CHUNK_SIZE as nat)),
        plan.sha256_hex@ == hex_lower(sha256(data@)),
        plan.sha256_hex@.len() == 64,
{
    let n = data.len();
    let size = UPLOAD_CHUNK_SIZE;
    let mut chunks: Vec<(usize, usize)> = Vec::new();
    let ghost done: Seq<(nat, nat)> = seq![];
    let mut pos: usize = 0;
    assert(done + chunks_from(0, n as nat, size as nat) == chunks_from(0, n as nat, size as nat));
    while pos < n
        invariant
            n == data@.len(),
            size == UPLOAD_CHUNK_SIZE,
            pos <= n,
            bounds_are(chunks@, done),
            done + chunks_from(pos as nat, n as nat, size as nat) == chunks_from(
                0,
                n as nat,
                size as nat,
            ),
        decreases n - pos,
    {
        let end = if n - pos >= size {
            pos + size
        } else {
            n
        };
        proof {
            done = done + seq![(pos as nat, end as nat)];
        }
        chunks.push((pos, end));
        pos = end;
    }
    let digest = sha256_digest(data);
    proof {
        lemma_hex_lower_len(digest@);
    }
    UploadPlan { chunks, sha256_hex: to_hex_lower(&digest) }
}

} // verus!

verus! {

/// The endpoint of an upload stage for a job.
pub open spec fn upload_url_spec(server_url: Seq<char>, file_id: i64, stage: UploadStage) -> Seq<char> {
    server_url + "/api/upload/"@ + crate::text::signed_decimal(file_id as int) + match stage {
        UploadStage::Start => "/start"@,
        UploadStage::Chunk => "/chunk"@,
        UploadStage::Finish => "/finish"@,
    }
}

/// Where a stage of a job's upload is sent.
pub fn upload_url(server_url: &str, file_id: i64, stage: UploadStage) -> (res: String)
    ensures
        res@ == upload_url_spec(server_url@, file_id, stage),
{
    let mut s = owned(server_url);
    crate::text::push_str(&mut s, "/api/upload/");
    let id = crate::text::signed_decimal_string(file_id);
    crate::text::push_str(&mut s, id.as_str());
    match stage {
        UploadStage::Start => crate::text::push_str(&mut s, "/start"),
        UploadStage::Chunk => crate::text::push_str(&mut s, "/chunk"),
        UploadStage::Finish => crate::text::push_str(&mut s, "/finish"),
    }
    s
}

/// The last attempt of an upload stage always ends it: it never asks to try
/// again, so a stage takes at most `stage_retries(stage)` attempts.
pub proof fn lemma_upload_attempts_bounded(stage: UploadStage, outcome: HttpOutcome, res: RetryDecision<String>)
    requires
        upload_attempt_ok(stage, crate::net::client::stage_retries(stage), outcome, res),
    ensures
        !(res is Pause),
        !(res is Backoff),
{
}

/// Likewise for opening the session, whose success also reads the session id.
pub proof fn lemma_start_attempts_bounded(outcome: HttpOutcome, res: RetryDecision<String>)
    requires
        start_attempt_ok(UPLOAD_START_RETRIES, outcome, res),
    ensures
        !(res is Pause),
        !(res is Backoff),
{
}

/// Chunks tile the file: each starts where the previous ended, none is empty or
/// longer than `size`, and the last ends at the file's end.
pub proof fn lemma_chunks_tile(start: nat, n: nat, size: nat)
    requires
        size > 0,
        start <= n,
    ensures
        chunks_from(start, n, size).len() > 0 ==> chunks_from(start, n, size)[0].0 == start,
        chunks_from(start, n, size).len() > 0 ==> chunks_from(start, n, size).last().1 == n,
        forall|k: int|
            0 <= k < chunks_from(start, n, size).len() ==> #[trigger] chunks_from(start, n, size)[k].0
                < chunks_from(start, n, size)[k].1 <= chunks_from(start, n, size)[k].0 + size,
        forall|k: int|
            0 <= k < chunks_from(start, n, size).len() - 1 ==> #[trigger] chunks_from(start, n, size)[k].1
                == chunks_from(start, n, size)[k + 1].0,
    decreases n - start,
{
    if start < n {
        let end = if start + size <= n {
            start + size
        } else {
            n
        };
        lemma_chunks_tile(end, n, size);
        let rest = chunks_from(end, n, size);
        let all = chunks_from(start, n, size);
        assert(all == seq![(start, end)] + rest);
        assert forall|k: int| 0 <= k < all.len() - 1 implies #[trigger] all[k].1 == all[k + 1].0 by {
            if k > 0 {
                assert(all[k] == rest[k - 1]);
                assert(all[k + 1] == rest[k]);
            }
        }
    }
}

} // verus!
