//! Scrape sources and jobs: what a source needs, how its schedule is bounded,
//! who may act on it, and how a job's run is recorded.

use vstd::prelude::*;
use vstd::string::*;
use crate::access::{access_spec, check_ownership};
use crate::auth::utf8_len;
use crate::error::{AppError, ErrorView};
use crate::text::{merged, trim, trim_str, view_opt_string};

verus! {

/// Default hours between two scrapes of a source.
pub const DEFAULT_INTERVAL_HOURS: i32 = 24;

/// Shortest and longest allowed hours between two scrapes of a source.
pub const MIN_INTERVAL_HOURS: i32 = 1;

pub const MAX_INTERVAL_HOURS: i32 = 720;

/// An interval clamped to 1..=720 hours.
pub open spec fn clamp_interval_spec(h: i32) -> i32 {
    if h < MIN_INTERVAL_HOURS {
        MIN_INTERVAL_HOURS
    } else if h > MAX_INTERVAL_HOURS {
        MAX_INTERVAL_HOURS
    } else {
        h
    }
}

/// Clamps a scrape interval to the allowed range.
pub fn clamp_interval(h: i32) -> (r: i32)
    ensures
        r == clamp_interval_spec(h),
        MIN_INTERVAL_HOURS <= r <= MAX_INTERVAL_HOURS,
{
    if h < MIN_INTERVAL_HOURS {
        MIN_INTERVAL_HOURS
    } else if h > MAX_INTERVAL_HOURS {
        MAX_INTERVAL_HOURS
    } else {
        h
    }
}

/// Clamping an interval twice changes nothing more.
pub proof fn lemma_clamp_interval_idempotent(h: i32)
    ensures
        clamp_interval_spec(clamp_interval_spec(h)) == clamp_interval_spec(h),
{
}

/// The text fields and schedule of a source, as sent in a creation request
/// (its scraper configuration travels beside them).
pub struct NewSourceFields {
    pub name: String,
    pub platform: String,
    pub source_url: String,
    pub scrape_interval_hours: Option<i32>,
}

/// Why a new source is refused, if it is: a name of 1 to 255 bytes and a
/// non-blank URL are needed.
pub open spec fn new_source_error(name: Seq<char>, source_url: Seq<char>) -> Option<Seq<char>> {
    if trim(name).len() == 0 || utf8_len(name) > 255 {
        Some("name is required and must be at most 255 chars"@)
    } else if trim(source_url).len() == 0 {
        Some("source_url is required"@)
    } else {
        None
    }
}

/// A new source is refused for its name only when the name is blank or
/// longer than 255 bytes of UTF-8; a name within that and a non-blank URL
/// are accepted. A stored interval always lies between 1 and 720 hours and
/// is the requested one whenever that lies there too.
pub proof fn lemma_new_source_accepted(name: Seq<char>, source_url: Seq<char>, hours: i32)
    ensures
        new_source_error(name, source_url) is None <==> (trim(name).len() != 0 && utf8_len(name) <= 255
            && trim(source_url).len() != 0),
        new_source_error(name, source_url) == Some("name is required and must be at most 255 chars"@)
            <==> (trim(name).len() == 0 || utf8_len(name) > 255),
        1 <= clamp_interval_spec(hours) <= 720,
        1 <= hours <= 720 ==> clamp_interval_spec(hours) == hours,
        hours < 1 ==> clamp_interval_spec(hours) == 1,
        hours > 720 ==> clamp_interval_spec(hours) == 720,
{
    reveal_strlit("name is required and must be at most 255 chars");
    reveal_strlit("source_url is required");
    assert("name is required and must be at most 255 chars"@[0] != "source_url is required"@[0]);
}

/// Checks a new source and yields the interval it is stored with.
pub fn validate_new_source(req: &NewSourceFields) -> (r: Result<i32, AppError>)
    ensures
        match new_source_error(req.name@, req.source_url@) {
            Some(m) => r is Err && r->Err_0@ == ErrorView::Validation(m),
            None => r is Ok && r->Ok_0 == clamp_interval_spec(
                match req.scrape_interval_hours {
                    Some(h) => h,
                    None => DEFAULT_INTERVAL_HOURS,
                },
            ),
        },
{
    if trim_str(req.name.as_str()).is_empty() || req.name.as_str().as_bytes().len() > 255 {
        return Err(AppError::validation("name is required and must be at most 255 chars"));
    }
    if trim_str(req.source_url.as_str()).is_empty() {
        return Err(AppError::validation("source_url is required"));
    }
    let h = match req.scrape_interval_hours {
        Some(h) => h,
        None => DEFAULT_INTERVAL_HOURS,
    };
    Ok(clamp_interval(h))
}

/// The stored fields of a source that an update can change, besides its configuration.
pub struct SourceFields {
    pub name: String,
    pub platform: String,
    pub source_url: String,
    pub is_active: bool,
    pub scrape_interval_hours: i32,
}

/// The fields of a source update request, besides the configuration.
pub struct SourceUpdate {
    pub name: Option<String>,
    pub platform: Option<String>,
    pub source_url: Option<String>,
    pub is_active: Option<bool>,
    pub scrape_interval_hours: Option<i32>,
}

/// Applies an update to a source; the interval, new or kept, is clamped again.
pub fn apply_source_update(existing: SourceFields, update: SourceUpdate) -> (r: SourceFields)
    ensures
        r.name@ == merged(view_opt_string(update.name), existing.name@),
        r.platform@ == merged(view_opt_string(update.platform), existing.platform@),
        r.source_url@ == merged(view_opt_string(update.source_url), existing.source_url@),
        r.is_active == match update.is_active {
            Some(b) => b,
            None => existing.is_active,
        },
        r.scrape_interval_hours == clamp_interval_spec(
            match update.scrape_interval_hours {
                Some(h) => h,
                None => existing.scrape_interval_hours,
            },
        ),
{
    SourceFields {
        name: match update.name {
            Some(n) => n,
            None => existing.name,
        },
        platform: match update.platform {
            Some(p) => p,
            None => existing.platform,
        },
        source_url: match update.source_url {
            Some(u) => u,
            None => existing.source_url,
        },
        is_active: match update.is_active {
            Some(b) => b,
            None => existing.is_active,
        },
        scrape_interval_hours: clamp_interval(
            match update.scrape_interval_hours {
                Some(h) => h,
                None => existing.scrape_interval_hours,
            },
        ),
    }
}

/// A source may be read, changed or triggered only by the creator that owns it.
pub fn check_source_access(owner: Option<u128>, creator_id: u128) -> (r: Result<(), AppError>)
    ensures
        match access_spec(owner, creator_id, "Source not found"@) {
            Ok(()) => r is Ok,
            Err(e) => r is Err && r->Err_0@ == e,
        },
{
    check_ownership(owner, creator_id, "Source not found")
}

/// A job may be read only by the creator that started it.
pub fn check_job_access(owner: Option<u128>, creator_id: u128) -> (r: Result<(), AppError>)
    ensures
        match access_spec(owner, creator_id, "Job not found"@) {
            Ok(()) => r is Ok,
            Err(e) => r is Err && r->Err_0@ == e,
        },
{
    check_ownership(owner, creator_id, "Job not found")
}

/// Name shown for the source of a job: `Unknown` once the source is gone.
pub fn job_source_name(source_name: Option<String>) -> (r: String)
    ensures
        r@ == match view_opt_string(source_name) {
            Some(n) => n,
            None => "Unknown"@,
        },
{
    match source_name {
        Some(n) => n,
        None => String::from_str("Unknown"),
    }
}

/// Error message recorded on a job that could not be queued.
pub fn queue_failure_message(detail: &str) -> (r: String)
    ensures
        r@ == "Failed to queue job: "@ + detail@,
{
    let mut m = String::from_str("Failed to queue job: ");
    m.append(detail);
    m
}

/// Errors a scraper can fail with.
pub enum ScraperError {
    Network(String),
    Parse(String),
    Config(String),
    NotImplemented(String),
}

/// Text of a scraper error.
pub open spec fn scraper_error_text(e: ScraperError) -> Seq<char> {
    match e {
        ScraperError::Network(m) => "Network error: "@ + m@,
        ScraperError::Parse(m) => "Parse error: "@ + m@,
        ScraperError::Config(m) => "Config error: "@ + m@,
        ScraperError::NotImplemented(m) => "Not implemented for platform: "@ + m@,
    }
}

fn prefixed(prefix: &str, detail: &str) -> (r: String)
    ensures
        r@ == prefix@ + detail@,
{
    let mut m = String::from_str(prefix);
    m.append(detail);
    m
}

impl ScraperError {
    /// The text of the error.
    pub fn message(&self) -> (r: String)
        ensures
            r@ == scraper_error_text(*self),
    {
        match self {
            ScraperError::Network(m) => prefixed("Network error: ", m.as_str()),
            ScraperError::Parse(m) => prefixed("Parse error: ", m.as_str()),
            ScraperError::Config(m) => prefixed("Config error: ", m.as_str()),
            ScraperError::NotImplemented(m) => prefixed("Not implemented for platform: ", m.as_str()),
        }
    }
}

/// Commands the job worker accepts.
pub enum JobCommand {
    /// Run the scrape job with this id.
    RunJob(u128),
    /// Stop the worker.
    Shutdown,
}

/// What the worker does on a command.
pub enum WorkerStep {
    Process(u128),
    Stop,
}

/// The worker processes a job command and stops on shutdown or when its
/// channel is closed (`None`).
pub fn worker_step(cmd: Option<JobCommand>) -> (r: WorkerStep)
    ensures
        match cmd {
            Some(JobCommand::RunJob(id)) => r == WorkerStep::Process(id),
            _ => r == WorkerStep::Stop,
        },
{
    match cmd {
        Some(JobCommand::RunJob(id)) => WorkerStep::Process(id),
        _ => WorkerStep::Stop,
    }
}

/// How a job run ends, as recorded on the job.
pub enum JobOutcome {
    /// `failed`, with this error message.
    Failed(String),
    /// `completed`, with this number of items found.
    Completed(i32),
}

/// The outcome of a job whose source platform has no registered scraper.
pub fn no_scraper_outcome(platform: &str) -> (r: JobOutcome)
    ensures
        r matches JobOutcome::Failed(m) && m@ == "No scraper registered for platform: "@ + platform@,
{
    JobOutcome::Failed(prefixed("No scraper registered for platform: ", platform))
}

/// The outcome of a scrape: the number of products found (as `as i32`
/// converts it), or the scraper's error text.
pub fn scrape_outcome(result: Result<usize, ScraperError>) -> (r: JobOutcome)
    ensures
        match result {
            Ok(n) => r == JobOutcome::Completed(n as i32),
            Err(e) => r matches JobOutcome::Failed(m) && m@ == scraper_error_text(e),
        },
{
    match result {
        Ok(n) => {
            #[verifier::truncate]
            let c = n as i32;
            JobOutcome::Completed(c)
        },
        Err(e) => JobOutcome::Failed(e.message()),
    }
}

/// The columns a finished job run writes on its job: the `status`, and the
/// `error_message` of a failure or the `items_found` of a completion.
pub struct JobCompletion {
    pub status: String,
    pub error_message: Option<String>,
    pub items_found: Option<i32>,
}

/// What a finished job run writes for each outcome: `failed` with its error
/// message, or `completed` with its number of items found; the other column
/// is left as it was.
pub fn job_completion(outcome: JobOutcome) -> (r: JobCompletion)
    ensures
        match outcome {
            JobOutcome::Failed(m) => r.status@ == "failed"@ && r.error_message == Some(m)
                && r.items_found is None,
            JobOutcome::Completed(n) => r.status@ == "completed"@ && r.error_message is None
                && r.items_found == Some(n),
        },
{
    match outcome {
        JobOutcome::Failed(m) => JobCompletion {
            status: String::from_str("failed"),
            error_message: Some(m),
            items_found: None,
        },
        JobOutcome::Completed(n) => JobCompletion {
            status: String::from_str("completed"),
            error_message: None,
            items_found: Some(n),
        },
    }
}

/// What a job run writes on its job, given its source's platform and, when a
/// scraper is registered for that platform, what the scrape gave (`None` when
/// none is): `failed` naming the platform, `completed` with the number of
/// products found (as `as i32` converts it), or `failed` with the scraper's
/// error text.
pub fn job_run_completion(platform: &str, scraped: Option<Result<usize, ScraperError>>) -> (r: JobCompletion)
    ensures
        match scraped {
            None => r.status@ == "failed"@ && r.items_found is None && (r.error_message matches Some(m)
                && m@ == "No scraper registered for platform: "@ + platform@),
            Some(Ok(n)) => r.status@ == "completed"@ && r.error_message is None
                && r.items_found == Some(n as i32),
            Some(Err(e)) => r.status@ == "failed"@ && r.items_found is None && (r.error_message matches Some(m)
                && m@ == scraper_error_text(e)),
        },
{
    match scraped {
        None => job_completion(no_scraper_outcome(platform)),
        Some(result) => job_completion(scrape_outcome(result)),
    }
}

} // verus!
