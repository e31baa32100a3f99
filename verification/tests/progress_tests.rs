use onehistory::progress::{LogCollector, ProgressCollector};

#[test]
fn collector_reports_every_500_and_at_total() {
    let mut c = LogCollector::new("History".to_string(), 1001, Vec::new());
    for _ in 0..1001 {
        c.inc(1);
    }
    assert_eq!(c.done(), 1001);
    assert_eq!(
        c.lines(),
        &vec![
            "[History] 500/1001".to_string(),
            "[History] 1000/1001".to_string(),
            "[History] 1001/1001".to_string(),
        ]
    );
}

#[test]
fn collector_reports_once_when_total_is_a_multiple() {
    let mut c = LogCollector::new("a".to_string(), 500, Vec::new());
    for _ in 0..500 {
        c.inc(1);
    }
    assert_eq!(c.lines(), &vec!["[a] 500/500".to_string()]);
}

#[test]
fn collector_keeps_earlier_lines_and_finishes() {
    let mut c = LogCollector::new("f".to_string(), 7, vec!["before".to_string()]);
    c.inc(3);
    c.inc(4);
    c.finish();
    assert_eq!(
        c.into_lines(),
        vec!["before".to_string(), "[f] 7/7".to_string(), "[f] done (7 records)".to_string()]
    );
}

#[test]
fn collector_reports_zero_and_large_steps() {
    let mut c = LogCollector::new("z".to_string(), 10, Vec::new());
    c.inc(0);
    c.inc(1500);
    c.finish();
    assert_eq!(
        c.into_lines(),
        vec!["[z] 0/10".to_string(), "[z] 1500/10".to_string(), "[z] done (1500 records)".to_string()]
    );
}

#[test]
fn collector_without_rows_only_finishes() {
    let mut c = LogCollector::new("empty".to_string(), 0, Vec::new());
    c.finish();
    assert_eq!(c.into_lines(), vec!["[empty] done (0 records)".to_string()]);
}
