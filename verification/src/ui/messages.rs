//! Messages sent from the background tasks to the window.
use vstd::prelude::*;

verus! {

/// The phase of a transfer (it decides the colour of its progress bar).
#[derive(Debug, Clone, Copy, PartialEq, Eq, Structural)]
pub enum TransferPhase {
    Download,
    Upload,
}

/// Messages sent from background tasks to the window.
#[derive(Debug)]
#[allow(inconsistent_fields)]
pub enum UiMessage {
    /// Append a line to the log area.
    LogLine(String),
    /// A transfer started: add it to the active transfers.
    TransferStarted { file_id: i64, label: String, phase: TransferPhase },
    /// Progress of a transfer.
    TransferProgress { file_id: i64, current: u64, total: u64, phase: TransferPhase },
    /// A transfer ended: remove it from the active transfers.
    TransferDone { file_id: i64 },
    /// Logging in succeeded.
    AuthSuccess,
    /// Logging in failed.
    AuthFailed(String),
    /// The worker loop started.
    WorkerStarted,
    /// The worker loop stopped.
    WorkerStopped,
    /// A job completed.
    JobCompleted { file_id: i64, dest_path: String, bytes: u64 },
    /// A job failed after all its attempts.
    JobFailed { file_id: i64, error: String },
    /// A newer version is available.
    UpdateAvailable { current: String, remote: String },
    /// Set the status bar's text.
    StatusText(String),
}

/// A log line with the given text.
pub open spec fn is_log_line(m: UiMessage, text: Seq<char>) -> bool {
    m matches UiMessage::LogLine(t) && t@ == text
}

/// A status-bar message with the given text.
pub open spec fn is_status_text(m: UiMessage, text: Seq<char>) -> bool {
    m matches UiMessage::StatusText(t) && t@ == text
}

} // verus!
