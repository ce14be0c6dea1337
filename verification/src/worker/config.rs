//! Settings, counters and the state shared by the worker and its window.
use vstd::prelude::*;

verus! {

/// The worker's version, sent to the servers and compared with the newest release.
pub const VERSION: &'static str = "1.2.4";

/// The job server used unless the settings name another.
pub const DEFAULT_SERVER_URL: &'static str = "https://api.minerva-archive.org";

/// The upload server used unless the settings name another.
pub const DEFAULT_UPLOAD_SERVER_URL: &'static str = "https://gate.minerva-archive.org";

/// The size of one upload chunk, in bytes.
pub const UPLOAD_CHUNK_SIZE: usize = 8 * 1024 * 1024;

/// Attempts at one job (download and upload together).
pub const MAX_RETRIES: u32 = 3;

/// Seconds to wait after a failed attempt, multiplied by the attempt's number.
pub const RETRY_DELAY_SECS: u64 = 5;

/// Queued jobs per concurrent worker.
pub const QUEUE_PREFETCH: usize = 2;

} // verus!

verus! {

#[verifier::external_type_specification]
#[verifier::external_body]
pub struct ExPathBuf(std::path::PathBuf);

/// The per-user data directory (`dirs::data_dir`); it depends on the machine
/// and its environment, so nothing is claimed of it.
#[verifier::external_body]
fn data_dir() -> Option<std::path::PathBuf> {
    dirs::data_dir()
}

/// A path made of a string (`PathBuf::from`). Nothing is claimed of the path.
#[verifier::external_body]
fn path_from(s: &str) -> std::path::PathBuf {
    std::path::PathBuf::from(s)
}

/// `base` with `part` appended (`Path::join`). Nothing is claimed of the path.
#[verifier::external_body]
fn path_join(base: &std::path::PathBuf, part: &str) -> std::path::PathBuf {
    base.join(part)
}

/// The directory that holds the settings, the token and the temporary files.
fn app_data_dir() -> std::path::PathBuf {
    let base = match data_dir() {
        Some(d) => d,
        None => path_from("."),
    };
    path_join(&base, "minerva-dpn")
}

/// The worker's settings.
pub struct Config {
    pub server_url: String,
    pub upload_server_url: String,
    pub concurrency: usize,
    pub batch_size: usize,
    pub temp_dir: std::path::PathBuf,
    pub token_path: std::path::PathBuf,
    pub settings_path: std::path::PathBuf,
}

impl Default for Config {
    /// The default servers, two concurrent jobs and batches of ten, with the
    /// files kept in the user's data directory: `tmp`, `token` and
    /// `settings.json` under its `minerva-dpn` folder. Those three paths are
    /// left out of the contract: a `PathBuf` has no view to state them in, and
    /// what the data directory is depends on the machine.
    fn default() -> (res: Self)
        ensures
            res.server_url@ == DEFAULT_SERVER_URL@,
            res.upload_server_url@ == DEFAULT_UPLOAD_SERVER_URL@,
            res.concurrency == 2,
            res.batch_size == 10,
    {
        let base = app_data_dir();
        Config {
            server_url: DEFAULT_SERVER_URL.to_owned(),
            upload_server_url: DEFAULT_UPLOAD_SERVER_URL.to_owned(),
            concurrency: 2,
            batch_size: 10,
            temp_dir: path_join(&base, "tmp"),
            token_path: path_join(&base, "token"),
            settings_path: path_join(&base, "settings.json"),
        }
    }
}

/// The settings that the settings file can change.
pub struct SavedSettings {
    pub server_url: String,
    pub upload_server_url: String,
    pub concurrency: usize,
    pub batch_size: usize,
}

/// `v` brought into `[lo, hi]`.
pub open spec fn clamp(v: usize, lo: usize, hi: usize) -> usize {
    if v < lo {
        lo
    } else if v > hi {
        hi
    } else {
        v
    }
}

fn clamp_exec(v: usize, lo: usize, hi: usize) -> (r: usize)
    requires
        lo <= hi,
    ensures
        r == clamp(v, lo, hi),
{
    if v < lo {
        lo
    } else if v > hi {
        hi
    } else {
        v
    }
}

/// The most concurrent jobs the settings may ask for.
pub const MAX_CONCURRENCY: usize = 10;

/// The largest batch the settings may ask for.
pub const MAX_BATCH_SIZE: usize = 50;

impl Config {
    /// Takes over the saved servers, with concurrency kept within 1..=10 and
    /// the batch size within 1..=50; the paths stay as they are.
    pub fn apply_saved(&mut self, saved: SavedSettings)
        ensures
            final(self).server_url == saved.server_url,
            final(self).upload_server_url == saved.upload_server_url,
            final(self).concurrency == clamp(saved.concurrency, 1, MAX_CONCURRENCY),
            final(self).batch_size == clamp(saved.batch_size, 1, MAX_BATCH_SIZE),
            1 <= final(self).concurrency <= MAX_CONCURRENCY,
            1 <= final(self).batch_size <= MAX_BATCH_SIZE,
            1 <= saved.concurrency <= MAX_CONCURRENCY ==> final(self).concurrency == saved.concurrency,
            1 <= saved.batch_size <= MAX_BATCH_SIZE ==> final(self).batch_size == saved.batch_size,
            final(self).temp_dir == old(self).temp_dir,
            final(self).token_path == old(self).token_path,
            final(self).settings_path == old(self).settings_path,
    {
        self.server_url = saved.server_url;
        self.upload_server_url = saved.upload_server_url;
        self.concurrency = clamp_exec(saved.concurrency, 1, MAX_CONCURRENCY);
        self.batch_size = clamp_exec(saved.batch_size, 1, MAX_BATCH_SIZE);
    }
}

/// Counters of the jobs done in this session.
pub struct WorkerStats {
    pub jobs_completed: u64,
    pub jobs_failed: u64,
    pub bytes_downloaded: u64,
    pub bytes_uploaded: u64,
}

impl Default for WorkerStats {
    /// All counters at zero.
    fn default() -> (res: Self)
        ensures
            res.jobs_completed == 0,
            res.jobs_failed == 0,
            res.bytes_downloaded == 0,
            res.bytes_uploaded == 0,
    {
        WorkerStats { jobs_completed: 0, jobs_failed: 0, bytes_downloaded: 0, bytes_uploaded: 0 }
    }
}

impl WorkerStats {
    /// Counts a completed job of `bytes` bytes.
    pub fn record_completed(&mut self, bytes: u64)
        requires
            old(self).jobs_completed < u64::MAX,
            old(self).bytes_downloaded + bytes <= u64::MAX,
        ensures
            final(self).jobs_completed == old(self).jobs_completed + 1,
            final(self).bytes_downloaded == old(self).bytes_downloaded + bytes,
            final(self).jobs_failed == old(self).jobs_failed,
            final(self).bytes_uploaded == old(self).bytes_uploaded,
    {
        self.jobs_completed += 1;
        self.bytes_downloaded += bytes;
    }

    /// Counts a failed job.
    pub fn record_failed(&mut self)
        requires
            old(self).jobs_failed < u64::MAX,
        ensures
            final(self).jobs_failed == old(self).jobs_failed + 1,
            final(self).jobs_completed == old(self).jobs_completed,
            final(self).bytes_downloaded == old(self).bytes_downloaded,
            final(self).bytes_uploaded == old(self).bytes_uploaded,
    {
        self.jobs_failed += 1;
    }
}

/// The state that the worker and its window share.
pub struct AppState {
    pub config: Config,
    pub token: Option<String>,
    pub running: bool,
    pub stats: WorkerStats,
}

/// The state with its token replaced.
pub open spec fn with_token(s: AppState, token: String) -> AppState {
    AppState { token: Some(token), ..s }
}

/// The state with its running flag set to `val`.
pub open spec fn with_running(s: AppState, val: bool) -> AppState {
    AppState { running: val, ..s }
}

impl AppState {
    /// The state at start-up: the loaded settings and token, not running, no jobs counted.
    pub fn new(config: Config, token: Option<String>) -> (res: Self)
        ensures
            res.config == config,
            res.token == token,
            !res.running,
            res.stats.jobs_completed == 0,
            res.stats.jobs_failed == 0,
            res.stats.bytes_downloaded == 0,
            res.stats.bytes_uploaded == 0,
    {
        AppState { config, token, running: false, stats: WorkerStats::default() }
    }

    /// The login token, if there is one.
    pub fn get_token(&self) -> (res: Option<String>)
        ensures
            res == self.token,
    {
        match &self.token {
            Some(t) => Some(t.clone()),
            None => None,
        }
    }

    /// Replaces the login token (the caller also writes it to the token file).
    pub fn set_token(&mut self, token: String)
        ensures
            *final(self) == with_token(*old(self), token),
    {
        self.token = Some(token);
    }

    /// Whether the worker loop should run.
    pub fn is_running(&self) -> (res: bool)
        ensures
            res == self.running,
    {
        self.running
    }

    /// Starts or stops the worker loop.
    pub fn set_running(&mut self, val: bool)
        ensures
            *final(self) == with_running(*old(self), val),
    {
        self.running = val;
    }
}

/// After a token is set, reading the token gives it back, and the worker's
/// running flag is untouched; setting the running flag leaves the token alone.
pub proof fn lemma_state_read_after_write(s: AppState, token: String, val: bool)
    ensures
        with_token(s, token).token == Some(token),
        with_token(s, token).running == s.running,
        with_running(s, val).running == val,
        with_running(s, val).token == s.token,
{
}

/// The token kept in the token file: its text trimmed, if anything is left.
pub open spec fn token_from_text(text: Seq<char>) -> Option<Seq<char>> {
    if crate::text::trim(text).len() == 0 {
        None
    } else {
        Some(crate::text::trim(text))
    }
}

/// Reads the token out of the token file's text.
pub fn token_from_file_text(text: &str) -> (res: Option<String>)
    ensures
        crate::net::client::opt_view(res) == token_from_text(text@),
{
    let t = crate::text::trim_str(text);
    if t.as_str().is_empty() {
        None
    } else {
        Some(t)
    }
}

} // verus!
