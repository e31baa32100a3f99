//! The decisions behind the web API: which time range a page shows, how a
//! backup job is assembled and reported, how a failed request is answered,
//! and which content type a static file is served with.
use vstd::prelude::*;
use crate::backup::{BackupMode, BackupResult, EventView, RunState};
use crate::types::{BackupPollResponse, BackupRequest, BackupSummary, ClientError, ErrorMessage};

verus! {

// ---------------------------------------------------------------------------
// Time ranges (milliseconds since the Unix epoch)

/// One day.
pub const DAY_MS: i64 = 86_400_000;

/// How far back the dashboard and the search page look by default: 30 days.
pub const DEFAULT_SEARCH_INTERVAL: i64 = 3_600_000 * 24 * 30;

/// The last millisecond of the range: the end of the day that starts at
/// `end_midnight`, or the end of today.
pub open spec fn range_end(end_midnight: Option<i64>, tomorrow_midnight: i64) -> int {
    match end_midnight {
        Some(t) => t + DAY_MS - 1,
        None => tomorrow_midnight - 1,
    }
}

/// The first millisecond of the range: the midnight of the start day, or 30
/// days before tomorrow.
pub open spec fn range_start(start_midnight: Option<i64>, tomorrow_midnight: i64) -> int {
    match start_midnight {
        Some(t) => t as int,
        None => tomorrow_midnight - DEFAULT_SEARCH_INTERVAL,
    }
}

/// The time range of the dashboard and of the search page.
///
/// `start` and `end` are the midnights of the days in the query (`None` when
/// the query names no day, `Err` when its day could not be read);
/// `tomorrow_midnight` is the start of tomorrow. The end day is included
/// whole. A day that could not be read is a client error; the end day is
/// looked at first.
pub fn query_range(
    start: Option<Result<i64, String>>,
    end: Option<Result<i64, String>>,
    tomorrow_midnight: i64,
) -> (r: Result<(i64, i64), ClientError>)
    requires
        end matches Some(Ok(t)) ==> t + DAY_MS <= i64::MAX,
        end is None ==> tomorrow_midnight - 1 >= i64::MIN,
        !(end matches Some(Err(_))) ==> (start is None ==> tomorrow_midnight
            - DEFAULT_SEARCH_INTERVAL >= i64::MIN),
    ensures
        end matches Some(Err(e)) ==> (r matches Err(c) && c.e@ == e@),
        !(end matches Some(Err(_))) ==> (start matches Some(Err(e)) ==> (r matches Err(c)
            && c.e@ == e@)),
        r is Ok <==> !(end matches Some(Err(_))) && !(start matches Some(Err(_))),
        r matches Ok((s, e)) ==> {
            &&& s == range_start(
                match start {
                    Some(Ok(t)) => Some(t),
                    _ => None,
                },
                tomorrow_midnight,
            )
            &&& e == range_end(
                match end {
                    Some(Ok(t)) => Some(t),
                    _ => None,
                },
                tomorrow_midnight,
            )
        },
{
    let e = match end {
        Some(Ok(t)) => t + DAY_MS - 1,
        Some(Err(msg)) => {
            return Err(ClientError { e: msg });
        },
        None => tomorrow_midnight - 1,
    };
    let s = match start {
        Some(Ok(t)) => t,
        Some(Err(msg)) => {
            return Err(ClientError { e: msg });
        },
        None => tomorrow_midnight - DEFAULT_SEARCH_INTERVAL,
    };
    Ok((s, e))
}

/// The time range of the details page of the day that starts at `midnight`.
pub fn details_range(midnight: i64) -> (r: (i64, i64))
    requires
        midnight + DAY_MS <= i64::MAX,
    ensures
        r == (midnight, (midnight + DAY_MS) as i64),
{
    (midnight, midnight + 3_600_000 * 24)
}

/// The first and last visit times known to the database, or `fallback`
/// when they cannot be read.
pub fn time_bounds(found: Result<(i64, i64), String>, fallback: (i64, i64)) -> (r: (i64, i64))
    ensures
        r == match found {
            Ok(v) => v,
            Err(_) => fallback,
        },
{
    match found {
        Ok(v) => v,
        Err(_) => fallback,
    }
}

// ---------------------------------------------------------------------------
// Backup jobs

/// How long a finished backup job is kept, in seconds.
pub const JOB_TTL_SECS: u64 = 3600;

/// Whether a job is kept: while it runs, and for an hour after it finished.
pub open spec fn kept(finished_secs_ago: Option<u64>) -> bool {
    match finished_secs_ago {
        None => true,
        Some(t) => t < JOB_TTL_SECS,
    }
}

/// Whether a job is kept in the job store: `finished_secs_ago` is `None`
/// while the job runs, else how long ago it finished.
pub fn job_is_kept(finished_secs_ago: Option<u64>) -> (r: bool)
    ensures
        r == kept(finished_secs_ago),
{
    match finished_secs_ago {
        None => true,
        Some(t) => t < JOB_TTL_SECS,
    }
}

/// The history files a backup job reads: the detected ones, unless the
/// request disables detection, followed by those the request names.
pub fn backup_files(req: &BackupRequest, detected: Vec<String>) -> (r: Vec<String>)
    ensures
        r.deep_view() == (if req.disable_detect {
            Seq::empty()
        } else {
            detected.deep_view()
        }) + req.files.deep_view(),
{
    let mut files: Vec<String> = if req.disable_detect {
        Vec::new()
    } else {
        detected
    };
    let ghost start = files.deep_view();
    assert(req.disable_detect ==> start =~= Seq::<Seq<char>>::empty());
    let n = req.files.len();
    let mut j: usize = 0;
    while j < n
        invariant
            n == req.files.len(),
            j <= n,
            files.deep_view() == start + req.files.deep_view().take(j as int),
        decreases n - j,
    {
        let f = req.files[j].clone();
        let ghost before = files.deep_view();
        files.push(f);
        assert(files.deep_view() =~= before.push(f@));
        assert(req.files.deep_view().take(j + 1) =~= req.files.deep_view().take(j as int).push(
            f@,
        ));
        j = j + 1;
    }
    assert(req.files.deep_view().take(n as int) =~= req.files.deep_view());
    files
}

/// The status of a job that has not finished.
pub fn running_status() -> (r: String)
    ensures
        r@ == "running"@,
{
    String::from_str("running")
}

/// What a poll shows of a backup job: its status and, once it is over, the
/// summary of its backup.
pub struct JobView {
    pub status: Seq<char>,
    pub summary: Option<BackupSummary>,
}

/// A job runs without a summary, or is over (done or failed) with one.
pub open spec fn job_wf(v: JobView) -> bool {
    ||| (v.status == "running"@ && v.summary is None)
    ||| ((v.status == "done"@ || v.status == "error"@) && v.summary is Some)
}

/// What a job shows once its backup ended with `outcome`.
pub open spec fn finished_view(outcome: Result<BackupResult, String>) -> JobView {
    match outcome {
        Ok(r) => JobView {
            status: "done"@,
            summary: Some(
                BackupSummary {
                    found: r.found,
                    imported: r.imported,
                    duplicated: r.duplicated,
                    error: None,
                },
            ),
        },
        Err(e) => JobView {
            status: "error"@,
            summary: Some(BackupSummary { found: 0, imported: 0, duplicated: 0, error: Some(e) }),
        },
    }
}

proof fn lemma_statuses_differ()
    ensures
        "running"@ != "done"@,
        "running"@ != "error"@,
        "done"@ != "error"@,
{
    reveal_strlit("running");
    reveal_strlit("done");
    reveal_strlit("error");
    assert("running"@.len() == 7);
    assert("done"@.len() == 4);
    assert("error"@.len() == 5);
}

#[derive(Debug, Clone, Copy, PartialEq, Eq, Structural)]
enum JobStatus {
    Running,
    Done,
    Error,
}

/// The status and summary of a backup job, kept together so that they
/// change at once.
#[derive(Debug)]
pub struct BackupJobState {
    status: JobStatus,
    summary: Option<BackupSummary>,
}

impl View for BackupJobState {
    type V = JobView;

    closed spec fn view(&self) -> JobView {
        JobView {
            status: match self.status {
                JobStatus::Running => "running"@,
                JobStatus::Done => "done"@,
                JobStatus::Error => "error"@,
            },
            summary: self.summary,
        }
    }
}

fn copy_summary(s: &BackupSummary) -> (r: BackupSummary)
    ensures
        r == *s,
{
    let error = match &s.error {
        Some(e) => Some(e.clone()),
        None => None,
    };
    BackupSummary { found: s.found, imported: s.imported, duplicated: s.duplicated, error }
}

impl BackupJobState {
    /// A job that has just started.
    pub fn new() -> (r: Self)
        ensures
            r@ == (JobView { status: "running"@, summary: None }),
            job_wf(r@),
    {
        BackupJobState { status: JobStatus::Running, summary: None }
    }

    /// Whether the job still runs.
    pub fn is_running(&self) -> (r: bool)
        ensures
            r == (self@.status == "running"@),
    {
        proof {
            lemma_statuses_differ();
        }
        match self.status {
            JobStatus::Running => true,
            _ => false,
        }
    }

    /// Ends the job with the outcome of its backup: summary and status are
    /// set together, once.
    pub fn finish(&mut self, outcome: Result<BackupResult, String>)
        requires
            old(self)@.status == "running"@,
        ensures
            final(self)@ == finished_view(outcome),
            final(self)@.status != "running"@,
            job_wf(final(self)@),
    {
        proof {
            lemma_statuses_differ();
        }
        match outcome {
            Ok(res) => {
                self.summary = Some(
                    BackupSummary {
                        found: res.found,
                        imported: res.imported,
                        duplicated: res.duplicated,
                        error: None,
                    },
                );
                self.status = JobStatus::Done;
            },
            Err(e) => {
                self.summary = Some(
                    BackupSummary { found: 0, imported: 0, duplicated: 0, error: Some(e) },
                );
                self.status = JobStatus::Error;
            },
        }
    }

    /// The status and the summary as a poll shows them.
    pub fn snapshot(&self) -> (r: (String, Option<BackupSummary>))
        ensures
            r.0@ == self@.status,
            r.1 == self@.summary,
    {
        let status = match self.status {
            JobStatus::Running => running_status(),
            JobStatus::Done => String::from_str("done"),
            JobStatus::Error => String::from_str("error"),
        };
        let summary = match &self.summary {
            Some(s) => Some(copy_summary(s)),
            None => None,
        };
        (status, summary)
    }
}

/// The message of a poll of an unknown job.
pub open spec fn unknown_job_message() -> Seq<char> {
    "job not found"@
}

/// The answer to a poll: the job's status, log and summary, or a client
/// error when there is no such job.
pub fn poll_reply(job: Option<(String, Vec<String>, Option<BackupSummary>)>) -> (r: Result<
    BackupPollResponse,
    ClientError,
>)
    ensures
        job is None ==> (r matches Err(c) && c.e@ == unknown_job_message()),
        job matches Some(j) ==> (r matches Ok(p) && p.status == j.0 && p.log_lines == j.1
            && p.summary == j.2),
{
    match job {
        None => Err(ClientError { e: String::from_str("job not found") }),
        Some((status, log_lines, summary)) => Ok(BackupPollResponse { status, log_lines, summary }),
    }
}

// ---------------------------------------------------------------------------
// Failed requests

/// Why a request failed.
#[derive(Debug)]
pub enum RejectionKind {
    /// No route matched.
    NotFound,
    /// A `ServerError` with this message.
    Server(String),
    /// A `ClientError` with this message.
    Client(String),
    /// Anything else.
    Unhandled,
}

/// The HTTP status of an answer to a failed request.
pub open spec fn rejection_code(k: RejectionKind) -> u16 {
    match k {
        RejectionKind::NotFound => 404,
        RejectionKind::Server(_) => 500,
        RejectionKind::Client(_) => 400,
        RejectionKind::Unhandled => 500,
    }
}

/// The message of an answer to a failed request.
pub open spec fn rejection_message(k: RejectionKind) -> Seq<char> {
    match k {
        RejectionKind::NotFound => "NOT_FOUND"@,
        RejectionKind::Server(e) => e@,
        RejectionKind::Client(e) => e@,
        RejectionKind::Unhandled => "UNHANDLED_REJECTION"@,
    }
}

/// The answer to a failed request.
pub fn handle_rejection(kind: RejectionKind) -> (r: ErrorMessage)
    ensures
        r.code == rejection_code(kind),
        r.message@ == rejection_message(kind),
{
    match kind {
        RejectionKind::NotFound => ErrorMessage { code: 404, message: String::from_str("NOT_FOUND") },
        RejectionKind::Server(e) => ErrorMessage { code: 500, message: e },
        RejectionKind::Client(e) => ErrorMessage { code: 400, message: e },
        RejectionKind::Unhandled => ErrorMessage {
            code: 500,
            message: String::from_str("UNHANDLED_REJECTION"),
        },
    }
}

/// Whether the answer with this status is written to the error log: all
/// but "not found".
pub fn is_logged(code: u16) -> (r: bool)
    ensures
        r == (code != 404),
{
    code != 404
}

// ---------------------------------------------------------------------------
// Static files

/// The MIME type that `mime_guess` gives a path: the first type known for
/// its extension, or `application/octet-stream`.
pub uninterp spec fn mime_first_or_octet_stream(path: Seq<char>) -> Seq<char>;

/// Calls `mime_guess::from_path(path).first_or_octet_stream()` and gives
/// the type's text. Its contract says only that the result is the value
/// `mime_guess`'s table gives the path; the table itself is not written down.
#[verifier::external_body]
fn guess_mime(path: &str) -> (r: String)
    ensures
        r@ == mime_first_or_octet_stream(path@),
{
    let mime = mime_guess::from_path(path).first_or_octet_stream();
    let text: &str = mime.as_ref();
    text.to_string()
}

/// The content type a static file at `path` is served with.
pub fn content_type(path: &str) -> (r: String)
    ensures
        r@ == mime_first_or_octet_stream(path@),
{
    guess_mime(path)
}

// ---------------------------------------------------------------------------
// Laws

/// A range that ends on a day includes that whole day and nothing of the
/// next one; a range that starts on a day includes it from its midnight.
pub proof fn law_end_day_is_included(midnight: i64, tomorrow_midnight: i64, m: int)
    ensures
        midnight <= m < midnight + DAY_MS ==> m <= range_end(Some(midnight), tomorrow_midnight),
        range_end(Some(midnight), tomorrow_midnight) < midnight + DAY_MS,
        range_start(Some(midnight), tomorrow_midnight) == midnight,
{
}

/// A range from one day to the same day spans exactly one day, and the
/// default range spans exactly 30 days, up to the end of today.
pub proof fn law_range_lengths(midnight: i64, tomorrow_midnight: i64)
    ensures
        range_end(Some(midnight), tomorrow_midnight) - range_start(Some(midnight), tomorrow_midnight)
            + 1 == DAY_MS,
        range_end(None, tomorrow_midnight) - range_start(None, tomorrow_midnight) + 1
            == DEFAULT_SEARCH_INTERVAL,
        DEFAULT_SEARCH_INTERVAL == 30 * DAY_MS,
        range_end(None, tomorrow_midnight) == tomorrow_midnight - 1,
{
}

/// A running job is never evicted, and a finished job once evicted stays
/// evicted: a job kept at some age was kept at every younger age.
pub proof fn law_eviction_is_final(younger: u64, older: u64)
    ensures
        kept(None),
        younger <= older && kept(Some(older)) ==> kept(Some(younger)),
        !kept(Some(JOB_TTL_SECS)),
{
}

/// Polling a job that does not exist is answered with status 400 and the
/// message `job not found`.
pub proof fn law_unknown_job_is_a_client_error(c: ClientError)
    requires
        c.e@ == unknown_job_message(),
    ensures
        rejection_code(RejectionKind::Client(c.e)) == 400,
        rejection_message(RejectionKind::Client(c.e)) == unknown_job_message(),
{
}

/// Every failed request but "not found" is written to the error log.
pub proof fn law_only_not_found_is_quiet(k: RejectionKind)
    ensures
        (rejection_code(k) != 404) <==> !(k is NotFound),
{
}

/// A poll never sees a finished job without its summary, nor a running one
/// with a summary.
pub proof fn law_finished_job_has_summary(v: JobView)
    requires
        job_wf(v),
    ensures
        v.status != "running"@ ==> v.summary is Some,
        v.status == "running"@ ==> v.summary is None,
{
    lemma_statuses_differ();
}

/// A job's status changes once: from running to done or error, and each
/// step keeps the job well formed.
pub proof fn law_job_finishes_once(outcome: Result<BackupResult, String>)
    ensures
        job_wf(JobView { status: "running"@, summary: None }),
        job_wf(finished_view(outcome)),
        finished_view(outcome).status != "running"@,
        outcome is Ok ==> finished_view(outcome).status == "done"@,
        outcome is Err ==> finished_view(outcome).status == "error"@,
{
    lemma_statuses_differ();
}

/// A job whose backup succeeded reports `done` with the backup's counts
/// unchanged and no error; a job whose backup failed reports `error`, zero
/// counts and the failure.
pub proof fn law_job_summary_keeps_counts(r: BackupResult, err: String)
    ensures
        finished_view(Ok(r)).status == "done"@,
        finished_view(Ok(r)).summary == Some(
            BackupSummary {
                found: r.found,
                imported: r.imported,
                duplicated: r.duplicated,
                error: None,
            },
        ),
        finished_view(Err(err)).status == "error"@,
        finished_view(Err(err)).summary == Some(
            BackupSummary { found: 0, imported: 0, duplicated: 0, error: Some(err) },
        ),
{
}

/// When a web backup run ends with its counts, the job finished with that
/// outcome shows the run's found, imported and duplicated rows.
pub proof fn law_job_reports_run_counts(s: RunState, e: EventView)
    requires
        s.wf(),
        s.accepts(e),
        s.mode == BackupMode::Log,
        s.next(e).1 is Finished,
        s.next(e).1->Finished_0 is Ok,
    ensures
        ({
            let t = s.next(e).0;
            let v = finished_view(Ok(s.next(e).1->Finished_0->Ok_0));
            &&& v.summary is Some
            &&& v.summary->Some_0.found == t.found
            &&& v.summary->Some_0.imported == t.imported
            &&& v.summary->Some_0.duplicated == t.duplicated
            &&& v.summary->Some_0.error is None
        }),
{
}

/// A failed request is answered by its kind: "not found" with 404 and
/// `NOT_FOUND`, a client error with 400 and its own message, a server error
/// with 500 and its own message, anything else with 500 and
/// `UNHANDLED_REJECTION`.
pub proof fn law_rejection_answers(msg: String)
    ensures
        rejection_code(RejectionKind::NotFound) == 404,
        rejection_message(RejectionKind::NotFound) == "NOT_FOUND"@,
        rejection_code(RejectionKind::Client(msg)) == 400,
        rejection_message(RejectionKind::Client(msg)) == msg@,
        rejection_code(RejectionKind::Server(msg)) == 500,
        rejection_message(RejectionKind::Server(msg)) == msg@,
        rejection_code(RejectionKind::Unhandled) == 500,
        rejection_message(RejectionKind::Unhandled) == "UNHANDLED_REJECTION"@,
{
}

} // verus!
