use onehistory::backup::BackupResult;
use onehistory::types::{BackupRequest, BackupSummary, ClientError, ServerError};
use onehistory::web::{
    backup_files, content_type, details_range, handle_rejection, is_logged, job_is_kept, BackupJobState,
    poll_reply, query_range, running_status, time_bounds, RejectionKind, DAY_MS,
    DEFAULT_SEARCH_INTERVAL, JOB_TTL_SECS,
};

#[test]
fn range_includes_the_whole_end_day() {
    let r = query_range(Some(Ok(1_000)), Some(Ok(5 * DAY_MS)), 10 * DAY_MS).unwrap();
    assert_eq!(r, (1_000, 6 * DAY_MS - 1));
}

#[test]
fn default_range_is_the_last_30_days() {
    let tomorrow = 100 * DAY_MS;
    assert_eq!(query_range(None, None, tomorrow).unwrap(), (tomorrow - 2_592_000_000, tomorrow - 1));
    assert_eq!(DEFAULT_SEARCH_INTERVAL, 2_592_000_000);
}

#[test]
fn unreadable_end_day_is_reported_first() {
    let r = query_range(Some(Err("bad start".to_string())), Some(Err("bad end".to_string())), 0);
    assert_eq!(r.unwrap_err().e, "bad end");
    let r = query_range(Some(Err("bad start".to_string())), None, DAY_MS);
    assert_eq!(r.unwrap_err().e, "bad start");
}

#[test]
fn details_cover_one_day() {
    assert_eq!(details_range(0), (0, 86_400_000));
    assert_eq!(details_range(-DAY_MS), (-DAY_MS, 0));
}

#[test]
fn time_bounds_fall_back_on_error() {
    assert_eq!(time_bounds(Ok((1, 2)), (0, 9)), (1, 2));
    assert_eq!(time_bounds(Err("no rows".to_string()), (0, 9)), (0, 9));
}

#[test]
fn jobs_are_kept_for_an_hour_after_finishing() {
    assert!(job_is_kept(None));
    assert!(job_is_kept(Some(0)));
    assert!(job_is_kept(Some(JOB_TTL_SECS - 1)));
    assert!(!job_is_kept(Some(3600)));
    assert!(!job_is_kept(Some(u64::MAX)));
}

#[test]
fn backup_files_put_detected_first() {
    let req = BackupRequest { files: vec!["/x".to_string()], disable_detect: false, dry_run: false };
    assert_eq!(backup_files(&req, vec!["/d1".to_string(), "/d2".to_string()]), vec!["/d1", "/d2", "/x"]);
    let req = BackupRequest { files: vec!["/x".to_string(), "/y".to_string()], disable_detect: true, dry_run: true };
    assert_eq!(backup_files(&req, vec!["/d1".to_string()]), vec!["/x", "/y"]);
}

#[test]
fn job_reports_done_with_its_summary() {
    let mut job = BackupJobState::new();
    assert!(job.is_running());
    let (status, summary) = job.snapshot();
    assert_eq!(status, "running");
    assert!(summary.is_none());
    job.finish(Ok(BackupResult { found: 5, imported: 3, duplicated: 2, failed: 1 }));
    assert!(!job.is_running());
    let (status, summary) = job.snapshot();
    assert_eq!(status, "done");
    let summary = summary.unwrap();
    assert_eq!((summary.found, summary.imported, summary.duplicated, summary.error), (5, 3, 2, None));
    assert_eq!(running_status(), "running");
}

#[test]
fn job_reports_error_with_zero_counts() {
    let mut job = BackupJobState::new();
    job.finish(Err("open 1History DB".to_string()));
    let (status, summary) = job.snapshot();
    assert_eq!(status, "error");
    let summary = summary.unwrap();
    assert_eq!(
        (summary.found, summary.imported, summary.duplicated, summary.error),
        (0, 0, 0, Some("open 1History DB".to_string()))
    );
}

#[test]
fn poll_of_unknown_job_is_a_400() {
    let err = poll_reply(None).unwrap_err();
    assert_eq!(err.e, "job not found");
    let answer = handle_rejection(RejectionKind::Client(err.e));
    assert_eq!(answer.code, 400);
    assert_eq!(answer.message, "job not found");
}

#[test]
fn poll_of_known_job_copies_its_state() {
    let summary = BackupSummary { found: 1, imported: 1, duplicated: 0, error: None };
    let r = poll_reply(Some(("done".to_string(), vec!["l".to_string()], Some(summary)))).unwrap();
    assert_eq!(r.status, "done");
    assert_eq!(r.log_lines, vec!["l".to_string()]);
    assert_eq!(r.summary.unwrap().found, 1);
}

#[test]
fn rejections_are_answered_by_kind() {
    let a = handle_rejection(RejectionKind::NotFound);
    assert_eq!((a.code, a.message.as_str()), (404, "NOT_FOUND"));
    let a = handle_rejection(RejectionKind::Server("db down".to_string()));
    assert_eq!((a.code, a.message.as_str()), (500, "db down"));
    let a = handle_rejection(RejectionKind::Client("bad date".to_string()));
    assert_eq!((a.code, a.message.as_str()), (400, "bad date"));
    let a = handle_rejection(RejectionKind::Unhandled);
    assert_eq!((a.code, a.message.as_str()), (500, "UNHANDLED_REJECTION"));
    assert!(!is_logged(404));
    assert!(is_logged(400));
    assert!(is_logged(500));
}

#[test]
fn static_files_get_their_content_type() {
    assert_eq!(content_type("index.html"), "text/html");
    assert_eq!(content_type("assets/app.css"), "text/css");
    assert_eq!(content_type("LICENSE"), "application/octet-stream");
    assert_eq!(content_type("data.unknownext"), "application/octet-stream");
}

#[test]
fn errors_carry_their_message() {
    assert_eq!(ServerError::from("boom".to_string()).e, "boom");
    assert_eq!(ClientError::from("bad".to_string()).e, "bad");
}
