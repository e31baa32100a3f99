use onehistory::backup::{backup, backup_to_log, BackupAction, BackupEvent, BackupResult, Progress};
use onehistory::progress::ProgressCollector;

fn files(names: &[&str]) -> Vec<String> {
    names.iter().map(|s| s.to_string()).collect()
}

#[test]
fn log_run_reads_writes_and_skips() {
    let mut run = backup_to_log(files(&["/a/History", "/b/places.sqlite"]), "db".to_string(), false, Vec::new());
    match run.step(BackupEvent::Start) {
        BackupAction::OpenDatabase { db_file } => assert_eq!(db_file, "db"),
        a => panic!("unexpected {a:?}"),
    }
    match run.step(BackupEvent::DatabaseOpened { error: None }) {
        BackupAction::LoadDirect { path } => assert_eq!(path, "/a/History"),
        a => panic!("unexpected {a:?}"),
    }
    let collector = match run.step(BackupEvent::Loaded { rows: 3 }) {
        BackupAction::Persist { path, progress: Progress::Log(c) } => {
            assert_eq!(path, "/a/History");
            c
        }
        a => panic!("unexpected {a:?}"),
    };
    let mut collector = collector;
    collector.inc(1);
    collector.inc(1);
    collector.inc(1);
    collector.finish();
    let event = BackupEvent::Persisted { outcome: Ok((2, 1)), progress_lines: collector.into_lines() };
    assert!(run.accepts(&event));
    match run.step(event) {
        BackupAction::LoadDirect { path } => assert_eq!(path, "/b/places.sqlite"),
        a => panic!("unexpected {a:?}"),
    }
    match run.step(BackupEvent::LoadFailed { error: "open: locked".to_string() }) {
        BackupAction::LoadFromTempCopy { path } => assert_eq!(path, "/b/places.sqlite"),
        a => panic!("unexpected {a:?}"),
    }
    match run.step(BackupEvent::LoadFailed { error: "select: bad".to_string() }) {
        BackupAction::Finished { outcome } => assert_eq!(
            outcome,
            Ok(BackupResult { found: 3, imported: 2, duplicated: 1, failed: 1 })
        ),
        a => panic!("unexpected {a:?}"),
    }
    assert!(run.is_finished());
    assert_eq!(
        run.lines(),
        &files(&[
            "Processing /a/History (3 records)...",
            "[/a/History] 3/3",
            "[/a/History] done (3 records)",
            "Done: /a/History",
            "Skip /b/places.sqlite: direct read failed: open: locked; temp copy retry failed: select: bad",
        ])
    );
}

#[test]
fn log_run_retry_succeeds_and_write_fails() {
    let mut run = backup_to_log(files(&["h"]), "db".to_string(), false, files(&["earlier"]));
    run.step(BackupEvent::Start);
    run.step(BackupEvent::DatabaseOpened { error: None });
    match run.step(BackupEvent::LoadFailed { error: "locked".to_string() }) {
        BackupAction::LoadFromTempCopy { path } => assert_eq!(path, "h"),
        a => panic!("unexpected {a:?}"),
    }
    match run.step(BackupEvent::Loaded { rows: 1200 }) {
        BackupAction::Persist { progress: Progress::Log(c), .. } => assert_eq!(c.done(), 0),
        a => panic!("unexpected {a:?}"),
    }
    match run.step(BackupEvent::Persisted { outcome: Err("persist: disk full".to_string()), progress_lines: files(&["[h] 500/1200"]) }) {
        BackupAction::Finished { outcome } => assert_eq!(
            outcome,
            Ok(BackupResult { found: 1200, imported: 0, duplicated: 0, failed: 1 })
        ),
        a => panic!("unexpected {a:?}"),
    }
    assert_eq!(
        run.lines(),
        &files(&["earlier", "Processing h (1200 records)...", "[h] 500/1200", "Skip h: persist: disk full"])
    );
}

#[test]
fn dry_run_counts_but_never_writes() {
    let mut run = backup_to_log(files(&["x", "y"]), "db".to_string(), true, Vec::new());
    run.step(BackupEvent::Start);
    run.step(BackupEvent::DatabaseOpened { error: None });
    match run.step(BackupEvent::Loaded { rows: 5 }) {
        BackupAction::LoadDirect { path } => assert_eq!(path, "y"),
        a => panic!("unexpected {a:?}"),
    }
    match run.step(BackupEvent::Loaded { rows: 7 }) {
        BackupAction::Finished { outcome } => assert_eq!(
            outcome,
            Ok(BackupResult { found: 12, imported: 0, duplicated: 0, failed: 0 })
        ),
        a => panic!("unexpected {a:?}"),
    }
    assert_eq!(
        run.lines(),
        &files(&["Processing x (5 records)...", "Done: x", "Processing y (7 records)...", "Done: y"])
    );
}

#[test]
fn database_that_cannot_open_ends_the_run() {
    let mut run = backup_to_log(files(&["x"]), "db".to_string(), false, Vec::new());
    run.step(BackupEvent::Start);
    match run.step(BackupEvent::DatabaseOpened { error: Some("open 1History DB: denied".to_string()) }) {
        BackupAction::Finished { outcome } => assert_eq!(outcome, Err("open 1History DB: denied".to_string())),
        a => panic!("unexpected {a:?}"),
    }
    assert!(run.is_finished());
    assert!(run.lines().is_empty());
}

#[test]
fn run_without_files_finishes_at_once() {
    let mut run = backup_to_log(Vec::new(), "db".to_string(), false, Vec::new());
    run.step(BackupEvent::Start);
    match run.step(BackupEvent::DatabaseOpened { error: None }) {
        BackupAction::Finished { outcome } => assert_eq!(outcome, Ok(BackupResult { found: 0, imported: 0, duplicated: 0, failed: 0 })),
        a => panic!("unexpected {a:?}"),
    }
}

#[test]
fn console_run_uses_a_bar_and_ends_with_a_summary() {
    let mut run = backup(files(&["/p/History.db", "/q"]), "db".to_string(), false);
    run.step(BackupEvent::Start);
    run.step(BackupEvent::DatabaseOpened { error: None });
    match run.step(BackupEvent::Loaded { rows: 42 }) {
        BackupAction::Persist { path, progress: Progress::Bar { len } } => {
            assert_eq!(path, "/p/History.db");
            assert_eq!(len, 42);
        }
        a => panic!("unexpected {a:?}"),
    }
    run.step(BackupEvent::Persisted { outcome: Ok((40, 2)), progress_lines: Vec::new() });
    run.step(BackupEvent::Loaded { rows: 1 });
    match run.step(BackupEvent::Persisted { outcome: Err("persist: locked".to_string()), progress_lines: Vec::new() }) {
        BackupAction::Finished { outcome } => assert_eq!(
            outcome,
            Ok(BackupResult { found: 43, imported: 40, duplicated: 2, failed: 1 })
        ),
        a => panic!("unexpected {a:?}"),
    }
    assert_eq!(
        run.lines(),
        &files(&[
            "Begin backup /p/History.db...",
            "Finish backup /p/History.db",
            "Begin backup /q...",
            "Skip backup /q: persist: locked",
            "Summary\nFound:43, Imported:40, Duplicated: 2, Failed:1",
        ])
    );
}

#[test]
fn console_skip_of_unreadable_file() {
    let mut run = backup(files(&["/r"]), "db".to_string(), true);
    run.step(BackupEvent::Start);
    run.step(BackupEvent::DatabaseOpened { error: None });
    run.step(BackupEvent::LoadFailed { error: "e1".to_string() });
    run.step(BackupEvent::LoadFailed { error: "e2".to_string() });
    assert_eq!(
        run.lines(),
        &files(&[
            "Skip backup /r: direct read failed: e1; temp copy retry failed: e2",
            "Summary\nFound:0, Imported:0, Duplicated: 0, Failed:1",
        ])
    );
}

#[test]
fn events_out_of_turn_are_not_accepted() {
    let run = backup_to_log(files(&["x"]), "db".to_string(), false, Vec::new());
    assert!(run.accepts(&BackupEvent::Start));
    assert!(!run.accepts(&BackupEvent::Loaded { rows: 1 }));
    assert!(!run.accepts(&BackupEvent::DatabaseOpened { error: None }));
    let mut run = run;
    run.step(BackupEvent::Start);
    run.step(BackupEvent::DatabaseOpened { error: None });
    assert!(run.accepts(&BackupEvent::Loaded { rows: 10 }));
    run.step(BackupEvent::Loaded { rows: 10 });
    assert!(!run.accepts(&BackupEvent::Loaded { rows: 1 }));
    assert!(run.accepts(&BackupEvent::Persisted { outcome: Ok((10, 0)), progress_lines: Vec::new() }));
}

fn finish_dry_run(names: &[&str], events: Vec<BackupEvent>) -> BackupResult {
    let mut run = backup_to_log(files(names), "db".to_string(), true, Vec::new());
    run.step(BackupEvent::Start);
    run.step(BackupEvent::DatabaseOpened { error: None });
    let mut last = None;
    for e in events {
        last = Some(run.step(e));
    }
    assert!(run.is_finished());
    match last {
        Some(BackupAction::Finished { outcome }) => outcome.unwrap(),
        None => run.result(),
        Some(a) => panic!("unexpected {a:?}"),
    }
}

fn events_a() -> Vec<BackupEvent> {
    vec![
        BackupEvent::Loaded { rows: 4 },
        BackupEvent::LoadFailed { error: "x".to_string() },
        BackupEvent::LoadFailed { error: "y".to_string() },
    ]
}

fn events_b() -> Vec<BackupEvent> {
    vec![BackupEvent::LoadFailed { error: "z".to_string() }, BackupEvent::Loaded { rows: 6 }]
}

#[test]
fn dry_runs_add_up() {
    let ra = finish_dry_run(&["a1", "a2"], events_a());
    let rb = finish_dry_run(&["b1"], events_b());
    let mut both = events_a();
    both.extend(events_b());
    let r = finish_dry_run(&["a1", "a2", "b1"], both);
    assert_eq!(ra, BackupResult { found: 4, imported: 0, duplicated: 0, failed: 1 });
    assert_eq!(rb, BackupResult { found: 6, imported: 0, duplicated: 0, failed: 0 });
    assert_eq!(r, BackupResult { found: 10, imported: 0, duplicated: 0, failed: 1 });
}

#[test]
fn terminal_and_web_runs_ask_the_same() {
    let names = ["p", "q"];
    let mut web = backup_to_log(files(&names), "db".to_string(), false, Vec::new());
    let mut term = backup(files(&names), "db".to_string(), false);
    let events = || {
        vec![
            BackupEvent::Start,
            BackupEvent::DatabaseOpened { error: None },
            BackupEvent::Loaded { rows: 9 },
            BackupEvent::Persisted { outcome: Ok((8, 1)), progress_lines: Vec::new() },
            BackupEvent::LoadFailed { error: "e".to_string() },
            BackupEvent::Loaded { rows: 2 },
            BackupEvent::Persisted { outcome: Err("persist: x".to_string()), progress_lines: Vec::new() },
        ]
    };
    for (e1, e2) in events().into_iter().zip(events()) {
        let a1 = web.step(e1);
        let a2 = term.step(e2);
        match (a1, a2) {
            (BackupAction::Persist { path: p1, progress: Progress::Log(c) }, BackupAction::Persist { path: p2, progress: Progress::Bar { len } }) => {
                assert_eq!(p1, p2);
                assert_eq!(c.lines().len(), 0);
                let mut c = c;
                c.finish();
                assert_eq!(c.into_lines()[0], format!("[{p1}] done (0 records)"));
                assert!(len == 9 || len == 2);
            }
            (BackupAction::Finished { outcome: o1 }, BackupAction::Finished { outcome: o2 }) => assert_eq!(o1, o2),
            (BackupAction::LoadDirect { path: p1 }, BackupAction::LoadDirect { path: p2 }) => assert_eq!(p1, p2),
            (BackupAction::LoadFromTempCopy { path: p1 }, BackupAction::LoadFromTempCopy { path: p2 }) => assert_eq!(p1, p2),
            (BackupAction::OpenDatabase { db_file: d1 }, BackupAction::OpenDatabase { db_file: d2 }) => assert_eq!(d1, d2),
            (a1, a2) => panic!("different requests {a1:?} and {a2:?}"),
        }
    }
    assert_eq!(web.result(), term.result());
    assert_eq!(web.result(), BackupResult { found: 11, imported: 8, duplicated: 1, failed: 1 });
}
