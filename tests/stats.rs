use temp_cleaner::{CleanupStats, DeletionOutcome};

#[test]
fn test_cleanup_stats() {
    let mut stats = CleanupStats::new();
    stats.add_file(1000);
    stats.add_file(2000);
    stats.add_error();

    assert_eq!(stats.files_deleted, 2);
    assert_eq!(stats.bytes_freed, 3000);
    assert_eq!(stats.errors, 1);
}

#[test]
fn new_stats_are_zero() {
    let stats = CleanupStats::new();
    assert_eq!(stats.files_deleted, 0);
    assert_eq!(stats.bytes_freed, 0);
    assert_eq!(stats.errors, 0);
}

#[test]
fn tally_of_mixed_outcomes() {
    let os = vec![
        DeletionOutcome { size: 10, removed: true },
        DeletionOutcome { size: 20, removed: false },
        DeletionOutcome { size: 30, removed: true },
        DeletionOutcome { size: 0, removed: true },
        DeletionOutcome { size: 40, removed: false },
    ];
    let mut stats = CleanupStats::new();
    assert!(stats.can_record(&os));
    stats.record_all(&os);
    assert_eq!(stats.files_deleted, 3);
    assert_eq!(stats.bytes_freed, 40);
    assert_eq!(stats.errors, 2);
}

#[test]
fn record_empty_sequence_changes_nothing() {
    let mut stats = CleanupStats::new();
    stats.add_file(5);
    stats.record_all(&Vec::new());
    assert_eq!(stats.files_deleted, 1);
    assert_eq!(stats.bytes_freed, 5);
    assert_eq!(stats.errors, 0);
}

#[test]
fn recording_never_decreases_counters() {
    let mut stats = CleanupStats::new();
    stats.add_file(7);
    let before = (stats.files_deleted, stats.bytes_freed, stats.errors);
    stats.add_file(0);
    assert!(stats.files_deleted >= before.0 && stats.bytes_freed >= before.1 && stats.errors >= before.2);
    assert_eq!(stats.files_deleted, 2);
    assert_eq!(stats.bytes_freed, 7);
    let before = (stats.files_deleted, stats.bytes_freed);
    stats.add_error();
    assert_eq!((stats.files_deleted, stats.bytes_freed), before);
    assert_eq!(stats.errors, 1);
}

#[test]
fn record_single_outcomes() {
    let mut stats = CleanupStats::new();
    stats.record(DeletionOutcome { size: 123, removed: true });
    stats.record(DeletionOutcome { size: 456, removed: false });
    assert_eq!(stats.files_deleted, 1);
    assert_eq!(stats.bytes_freed, 123);
    assert_eq!(stats.errors, 1);
}

#[test]
fn can_record_detects_overflow() {
    let mut stats = CleanupStats::new();
    stats.add_file(u64::MAX - 10);
    assert!(stats.can_record(&vec![DeletionOutcome { size: 10, removed: true }]));
    assert!(!stats.can_record(&vec![DeletionOutcome { size: 11, removed: true }]));
    assert!(!stats.can_record(&vec![
        DeletionOutcome { size: 5, removed: true },
        DeletionOutcome { size: 6, removed: true },
    ]));
    assert!(stats.can_record(&vec![DeletionOutcome { size: 11, removed: false }]));
}
