//! How the window reacts to the messages of the background tasks and to its
//! Start/Stop button.
use vstd::prelude::*;

use crate::text::{cut_bytes, cut_to_bytes, cuttable, decimal, decimal_string, owned, push_str};
use crate::ui::controls::TransferInfo;
use crate::ui::messages::{TransferPhase, UiMessage};
use crate::worker::engine::{job_label, job_label_spec, label_cuttable};

verus! {

/// One change to the window.
#[allow(inconsistent_fields)]
pub enum UiEffect {
    /// Append a line to the log.
    AppendLog(String),
    /// Set the status bar's text.
    SetStatus(String),
    /// Show the login button as logged in (or not).
    SetLoggedIn(bool),
    /// Show the Start/Stop button as running (or not).
    SetRunning(bool),
    /// Add a transfer (or show it afresh).
    AddTransfer(TransferInfo),
    /// Update a transfer's progress.
    UpdateTransfer { file_id: i64, current: u64, total: u64, phase: TransferPhase },
    /// Remove a transfer.
    RemoveTransfer(i64),
    /// Ask the user whether to update to the remote version.
    AskToUpdate { current: String, remote: String },
}

/// A log line with the given text.
pub open spec fn appends(e: UiEffect, text: Seq<char>) -> bool {
    e matches UiEffect::AppendLog(t) && t@ == text
}

/// A status-bar text.
pub open spec fn sets_status(e: UiEffect, text: Seq<char>) -> bool {
    e matches UiEffect::SetStatus(t) && t@ == text
}

/// A message that the window can show without cutting a character in two:
/// the texts it shortens are cut on character boundaries.
pub open spec fn displayable(msg: UiMessage) -> bool {
    match msg {
        UiMessage::JobCompleted { dest_path, .. } => label_cuttable(dest_path@),
        UiMessage::JobFailed { error, .. } => cuttable(error@, 120),
        _ => true,
    }
}

/// The changes a message makes to the window.
pub open spec fn ui_effects_ok(msg: UiMessage, concurrency: usize, server_url: Seq<char>, res: Seq<UiEffect>) -> bool {
    match msg {
        UiMessage::LogLine(t) => res.len() == 1 && appends(res[0], t@),
        UiMessage::TransferStarted { file_id, label, phase } => res.len() == 1 && (res[0] matches UiEffect::AddTransfer(i)
            && i.file_id == file_id && i.label == label && i.phase == phase && i.current == 0 && i.total == 0),
        UiMessage::TransferProgress { file_id, current, total, phase } => res.len() == 1 && res[0] == (UiEffect::UpdateTransfer {
            file_id,
            current,
            total,
            phase,
        }),
        UiMessage::TransferDone { file_id } => res.len() == 1 && res[0] == UiEffect::RemoveTransfer(file_id),
        UiMessage::AuthSuccess => res.len() == 3 && res[0] == UiEffect::SetLoggedIn(true) && sets_status(
            res[1],
            "Logged in - Ready"@,
        ) && appends(res[2], "Login successful!"@),
        UiMessage::AuthFailed(e) => res.len() == 1 && appends(res[0], "Login failed: "@ + e@),
        UiMessage::WorkerStarted => res.len() == 3 && res[0] == UiEffect::SetRunning(true) && sets_status(
            res[1],
            "Running ("@ + decimal(concurrency as nat) + " workers)"@,
        ) && appends(
            res[2],
            "Worker started (concurrency="@ + decimal(concurrency as nat) + ", server="@ + server_url
                + ")"@,
        ),
        UiMessage::WorkerStopped => res.len() == 3 && res[0] == UiEffect::SetRunning(false) && sets_status(
            res[1],
            "Stopped"@,
        ) && appends(res[2], "Worker stopped."@),
        UiMessage::JobCompleted { dest_path, bytes, .. } => res.len() == 1 && appends(
            res[0],
            "OK "@ + job_label_spec(dest_path@) + " ("@ + decimal(bytes as nat) + " bytes)"@,
        ),
        UiMessage::JobFailed { error, .. } => res.len() == 1 && appends(
            res[0],
            "FAIL: "@ + cut_bytes(error@, 120),
        ),
        UiMessage::UpdateAvailable { current, remote } => res.len() == 1 && (res[0] matches UiEffect::AskToUpdate {
            current: c,
            remote: r,
        } && c == current && r == remote),
        UiMessage::StatusText(t) => res.len() == 1 && sets_status(res[0], t@),
    }
}

/// What the window does with one message from the background tasks.
pub fn ui_effects(msg: UiMessage, concurrency: usize, server_url: &str) -> (res: Vec<UiEffect>)
    requires
        displayable(msg),
    ensures
        ui_effects_ok(msg, concurrency, server_url@, res@),
{
    let mut res: Vec<UiEffect> = Vec::new();
    match msg {
        UiMessage::LogLine(t) => res.push(UiEffect::AppendLog(t)),
        UiMessage::TransferStarted { file_id, label, phase } => {
            res.push(UiEffect::AddTransfer(TransferInfo { file_id, label, phase, current: 0, total: 0 }));
        },
        UiMessage::TransferProgress { file_id, current, total, phase } => {
            res.push(UiEffect::UpdateTransfer { file_id, current, total, phase });
        },
        UiMessage::TransferDone { file_id } => res.push(UiEffect::RemoveTransfer(file_id)),
        UiMessage::AuthSuccess => {
            res.push(UiEffect::SetLoggedIn(true));
            res.push(UiEffect::SetStatus(owned("Logged in - Ready")));
            res.push(UiEffect::AppendLog(owned("Login successful!")));
        },
        UiMessage::AuthFailed(e) => {
            let mut t = owned("Login failed: ");
            push_str(&mut t, e.as_str());
            res.push(UiEffect::AppendLog(t));
        },
        UiMessage::WorkerStarted => {
            let c = decimal_string(concurrency as u64);
            let mut status = owned("Running (");
            push_str(&mut status, c.as_str());
            push_str(&mut status, " workers)");
            let mut line = owned("Worker started (concurrency=");
            push_str(&mut line, c.as_str());
            push_str(&mut line, ", server=");
            push_str(&mut line, server_url);
            push_str(&mut line, ")");
            res.push(UiEffect::SetRunning(true));
            res.push(UiEffect::SetStatus(status));
            res.push(UiEffect::AppendLog(line));
        },
        UiMessage::WorkerStopped => {
            res.push(UiEffect::SetRunning(false));
            res.push(UiEffect::SetStatus(owned("Stopped")));
            res.push(UiEffect::AppendLog(owned("Worker stopped.")));
        },
        UiMessage::JobCompleted { dest_path, bytes, .. } => {
            let label = job_label(dest_path.as_str());
            let mut line = owned("OK ");
            push_str(&mut line, label.as_str());
            push_str(&mut line, " (");
            let b = decimal_string(bytes);
            push_str(&mut line, b.as_str());
            push_str(&mut line, " bytes)");
            res.push(UiEffect::AppendLog(line));
        },
        UiMessage::JobFailed { error, .. } => {
            let short = cut_to_bytes(error.as_str(), 120);
            let mut line = owned("FAIL: ");
            push_str(&mut line, short.as_str());
            res.push(UiEffect::AppendLog(line));
        },
        UiMessage::UpdateAvailable { current, remote } => {
            res.push(UiEffect::AskToUpdate { current, remote });
        },
        UiMessage::StatusText(t) => res.push(UiEffect::SetStatus(t)),
    }
    res
}

/// What the Start/Stop button does.
#[derive(Clone, Copy, PartialEq, Eq, Structural)]
pub enum StartStop {
    /// Stop the running worker.
    Stop,
    /// There is no token: ask the user to log in first.
    NeedLogin,
    /// Start the worker.
    Start,
}

/// The Start/Stop button stops a running worker, and starts a stopped one
/// only when there is a token.
pub fn start_stop(running: bool, has_token: bool) -> (res: StartStop)
    ensures
        running ==> res == StartStop::Stop,
        !running && !has_token ==> res == StartStop::NeedLogin,
        !running && has_token ==> res == StartStop::Start,
{
    if running {
        StartStop::Stop
    } else if !has_token {
        StartStop::NeedLogin
    } else {
        StartStop::Start
    }
}

/// The client width and height that a resize message carries in its
/// `lparam`: the low and the high 16-bit word.
pub fn resize_size(lparam: isize) -> (res: (i32, i32))
    ensures
        res.0 == (lparam as int) % 65536,
        res.1 == ((lparam as int) / 65536) % 65536,
{
    let lo: isize = lparam & 0xFFFF;
    let hi: isize = (lparam >> 16) & 0xFFFF;
    assert(lo == (lparam as int) % 65536) by (bit_vector)
        requires
            lo == lparam & 0xFFFF,
    ;
    assert(hi == ((lparam as int) / 65536) % 65536) by (bit_vector)
        requires
            hi == (lparam >> 16) & 0xFFFF,
    ;
    (lo as i32, hi as i32)
}

/// The control id and the notification code that a command message carries
/// in its `wparam`: the low and the high 16-bit word.
pub fn command_words(wparam: usize) -> (res: (u16, u16))
    ensures
        res.0 == wparam % 65536,
        res.1 == (wparam / 65536) % 65536,
{
    let lo: usize = wparam & 0xFFFF;
    let hi: usize = (wparam >> 16) & 0xFFFF;
    assert(lo == wparam % 65536) by (bit_vector)
        requires
            lo == wparam & 0xFFFF,
    ;
    assert(hi == (wparam / 65536) % 65536) by (bit_vector)
        requires
            hi == (wparam >> 16) & 0xFFFF,
    ;
    (lo as u16, hi as u16)
}

} // verus!
