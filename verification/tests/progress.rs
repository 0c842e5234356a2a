use lib::progress::{parse_command, status, Command, Status, TOTAL_ITEMS};
use lib::work_stats::{Snapshot, WorkStats};

#[test]
fn status_finished_at_total() {
    assert_eq!(status(TOTAL_ITEMS, 12345, 99), Status::Finished);
    assert_eq!(status(100, 0, 0), Status::Finished);
}

#[test]
fn status_nothing_done() {
    assert_eq!(status(0, 0, 0), Status::NothingDone);
}

#[test]
fn status_average_and_peak() {
    assert_eq!(
        status(4, 40_000, 12_000),
        Status::Working { done: 4, average_secs: 0, average_subsec_nanos: 10_000_000, peak_micros: 12_000 }
    );
    // 3_000_001 micros over 3 items: 1_000_000_333 nanos each
    assert_eq!(
        status(3, 3_000_001, 2_000_000),
        Status::Working { done: 3, average_secs: 1, average_subsec_nanos: 333, peak_micros: 2_000_000 }
    );
}

#[test]
fn status_matches_duration_division() {
    let total = 987_654_321u64;
    let n = 7usize;
    let expected = std::time::Duration::from_micros(total) / (n as u32);
    match status(n, total, 1) {
        Status::Working { average_secs, average_subsec_nanos, .. } => {
            assert_eq!(average_secs, expected.as_secs());
            assert_eq!(average_subsec_nanos, expected.subsec_nanos());
        }
        other => panic!("unexpected {:?}", other),
    }
}

#[test]
fn status_huge_total() {
    match status(1, u64::MAX, u64::MAX) {
        Status::Working { average_secs, average_subsec_nanos, peak_micros, .. } => {
            assert_eq!(average_secs, u64::MAX / 1_000_000);
            assert_eq!(average_subsec_nanos as u64, (u64::MAX % 1_000_000) * 1000);
            assert_eq!(peak_micros, u64::MAX);
        }
        other => panic!("unexpected {:?}", other),
    }
}

#[test]
fn commands() {
    assert_eq!(parse_command("help"), Command::Help);
    assert_eq!(parse_command("stop"), Command::Stop);
    assert_eq!(parse_command("Stop"), Command::Unknown);
    assert_eq!(parse_command("help "), Command::Unknown);
    assert_eq!(parse_command(""), Command::Unknown);
    assert_eq!(parse_command("héllo"), Command::Unknown);
}

#[test]
fn work_stats_record() {
    let stats = WorkStats::new();
    assert_eq!(stats.snapshot(), Snapshot { done: 0, total_micros: 0, max_micros: 0 });
    stats.record(10);
    stats.record(30);
    stats.record(20);
    assert_eq!(stats.snapshot(), Snapshot { done: 3, total_micros: 60, max_micros: 30 });
}
