//! Plain data carried between the backup procedure, the database layer and
//! the web API.
use vstd::prelude::*;
use vstd::std_specs::convert::FromSpecImpl;

verus! {

/// The browser a history file comes from.
#[derive(Debug, Clone, Copy, PartialEq, Eq, Structural)]
pub enum SourceName {
    Safari,
    Firefox,
    Chrome,
}

/// One visit of a page.
#[derive(Debug)]
pub struct VisitDetail {
    pub url: String,
    pub title: String,
    /// Milliseconds since the Unix epoch.
    pub visit_time: i64,
    pub visit_type: i64,
}

/// Counters shown on the dashboard.
#[derive(Debug)]
pub struct Stats {
    pub total_visits: i64,
    pub unique_urls: i64,
    pub active_days: i64,
    pub today_visits: i64,
}

/// When a history file was last imported.
#[derive(Debug)]
pub struct ImportRecord {
    pub data_path: String,
    pub last_import: i64,
}

/// What the database page shows about the backup database.
#[derive(Debug)]
pub struct DbStatus {
    pub file_path: String,
    pub file_size_bytes: u64,
    pub total_visits: i64,
    pub min_time: i64,
    pub max_time: i64,
    pub import_records: Vec<ImportRecord>,
}

/// A request to start a backup job.
#[derive(Debug)]
pub struct BackupRequest {
    pub files: Vec<String>,
    pub disable_detect: bool,
    pub dry_run: bool,
}

/// The answer to a started backup job.
#[derive(Debug)]
pub struct BackupJobResponse {
    pub job_id: String,
}

/// The answer to a poll of a backup job.
#[derive(Debug)]
pub struct BackupPollResponse {
    pub status: String,
    pub log_lines: Vec<String>,
    pub summary: Option<BackupSummary>,
}

/// The outcome of a finished backup job.
#[derive(Debug, Clone)]
pub struct BackupSummary {
    pub found: usize,
    pub imported: usize,
    pub duplicated: usize,
    pub error: Option<String>,
}

/// Query of the details page.
#[derive(Debug)]
pub struct DetailsQueryParams {
    pub keyword: Option<String>,
}

/// Query of the search page; dates are `Y-m-d`.
#[derive(Debug)]
pub struct SearchQueryParams {
    pub start: Option<String>,
    pub end: Option<String>,
    pub keyword: Option<String>,
}

/// Query of the dashboard; dates are `Y-m-d`.
#[derive(Debug)]
pub struct IndexQueryParams {
    pub start: Option<String>,
    pub end: Option<String>,
    pub keyword: Option<String>,
}

/// A failure on the server's side, answered with status 500.
#[derive(Debug)]
pub struct ServerError {
    pub e: String,
}

impl From<String> for ServerError {
    fn from(err: String) -> (r: Self) {
        ServerError { e: err }
    }
}

impl FromSpecImpl<String> for ServerError {
    open spec fn obeys_from_spec() -> bool {
        true
    }

    open spec fn from_spec(err: String) -> Self {
        ServerError { e: err }
    }
}

/// A malformed request, answered with status 400.
#[derive(Debug)]
pub struct ClientError {
    pub e: String,
}

impl From<String> for ClientError {
    fn from(err: String) -> (r: Self) {
        ClientError { e: err }
    }
}

impl FromSpecImpl<String> for ClientError {
    open spec fn obeys_from_spec() -> bool {
        true
    }

    open spec fn from_spec(err: String) -> Self {
        ClientError { e: err }
    }
}

/// The JSON body of an error answer.
#[derive(Debug)]
pub struct ErrorMessage {
    pub code: u16,
    pub message: String,
}

} // verus!
