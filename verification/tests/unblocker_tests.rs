use unblocker::{
    process_target, record_walk_event, unblock_directory, unblock_file, Config, RemovalEvent,
    TargetKind, UnblockStats, UnblockerError, WalkEvent,
};

fn fresh_config() -> Config {
    Config::new(true, None, "/tmp/target".to_string(), true, true).unwrap()
}

#[test]
fn test_unblock_stats_summary() {
    let stats = UnblockStats {
        files_processed: 10,
        files_unblocked: 5,
        files_no_ads: 3,
        files_failed: 2,
        permission_errors: 1,
    };

    let summary = stats.summary();
    assert!(summary.contains("10 files"));
    assert!(summary.contains("5 unblocked"));
    assert!(summary.contains("3 had no ADS"));
    assert!(summary.contains("2 failed"));
    assert!(summary.contains("1 permission errors"));
}

#[test]
fn test_summary_exact_wording() {
    let stats = UnblockStats {
        files_processed: 10,
        files_unblocked: 5,
        files_no_ads: 3,
        files_failed: 2,
        permission_errors: 1,
    };
    assert_eq!(
        stats.summary(),
        "Processed 10 files: 5 unblocked, 3 had no ADS, 2 failed (1 permission errors)"
    );
}

#[test]
fn test_unblock_file_no_ads() {
    let mut config = fresh_config();
    let result = unblock_file("/tmp/target/test.txt", Some(RemovalEvent::NotFound), &mut config);
    assert!(result.is_ok());
    assert_eq!(result.unwrap(), false);
}

#[test]
fn test_unblock_file_with_ads() {
    let mut config = fresh_config();
    let result = unblock_file("/tmp/target/test.txt", Some(RemovalEvent::Removed), &mut config);
    assert!(result.is_ok());
    assert_eq!(result.unwrap(), true);
}

#[test]
fn test_unblock_file_no_marker_is_idempotent() {
    let mut config = fresh_config();
    let first = unblock_file("/tmp/a.txt", Some(RemovalEvent::NotFound), &mut config);
    let second = unblock_file("/tmp/a.txt", Some(RemovalEvent::NotFound), &mut config);
    assert_eq!(first.unwrap(), false);
    assert_eq!(second.unwrap(), false);
    assert!(!config.requires_elevation);
}

#[test]
fn test_unblock_file_marker_then_gone() {
    let mut config = fresh_config();
    let first = unblock_file("/tmp/a.txt", Some(RemovalEvent::Removed), &mut config);
    let second = unblock_file("/tmp/a.txt", Some(RemovalEvent::NotFound), &mut config);
    assert_eq!(first.unwrap(), true);
    assert_eq!(second.unwrap(), false);
    assert!(!config.requires_elevation);
}

#[test]
fn test_unblock_file_denied_sets_sticky_flag() {
    let mut config = fresh_config();
    let denied = unblock_file("/tmp/a.txt", Some(RemovalEvent::AccessDenied), &mut config);
    assert!(matches!(denied, Err(UnblockerError::PermissionDenied(_))));
    assert!(config.requires_elevation);

    // Later successes never clear the flag.
    let ok = unblock_file("/tmp/b.txt", Some(RemovalEvent::Removed), &mut config);
    assert_eq!(ok.unwrap(), true);
    let none = unblock_file("/tmp/c.txt", Some(RemovalEvent::NotFound), &mut config);
    assert_eq!(none.unwrap(), false);
    assert!(config.requires_elevation);
}

#[test]
fn test_unblock_file_other_failure() {
    let mut config = fresh_config();
    let result = unblock_file(
        "/tmp/a.txt",
        Some(RemovalEvent::Failed("device error".to_string())),
        &mut config,
    );
    match result {
        Err(UnblockerError::Io(m)) => assert_eq!(m, "device error"),
        other => panic!("expected Io error, got {:?}", other),
    }
    assert!(!config.requires_elevation);
}

#[test]
fn test_unblock_file_invalid_path() {
    let mut config = fresh_config();
    let result = unblock_file("../secret", None, &mut config);
    assert!(matches!(result, Err(UnblockerError::InvalidPath(_))));
}

#[test]
fn test_unblock_file_skips_system_path() {
    let mut config = fresh_config();
    let result = unblock_file("C:\\Windows\\System32\\kernel32.dll", None, &mut config);
    assert_eq!(result.unwrap(), false);
    assert!(!config.requires_elevation);
}

#[test]
fn test_process_target_directory() {
    let mut config = fresh_config();
    let events = vec![WalkEvent::File(Ok(false)), WalkEvent::File(Ok(false))];
    let stats = process_target("/tmp/dir", TargetKind::Directory, events, &mut config).unwrap();
    assert_eq!(stats.files_processed, 2);
}

#[test]
fn test_directory_two_plain_files_scenario() {
    let mut config = fresh_config();
    let events = vec![WalkEvent::File(Ok(false)), WalkEvent::File(Ok(false))];
    let stats = process_target("/tmp/dir", TargetKind::Directory, events, &mut config).unwrap();
    assert_eq!(stats.files_processed, 2);
    assert_eq!(stats.files_unblocked, 0);
    assert_eq!(stats.files_no_ads, 2);
    assert_eq!(stats.files_failed, 0);
    assert_eq!(stats.permission_errors, 0);
    assert_eq!(
        stats.summary(),
        "Processed 2 files: 0 unblocked, 2 had no ADS, 0 failed (0 permission errors)"
    );
}

#[test]
fn test_single_file_with_marker_scenario() {
    let mut config = fresh_config();
    let result = unblock_file("/tmp/dl/setup.exe", Some(RemovalEvent::Removed), &mut config);
    let events = vec![WalkEvent::File(result)];
    let stats = process_target("/tmp/dl/setup.exe", TargetKind::File, events, &mut config).unwrap();
    assert_eq!(stats.files_processed, 1);
    assert_eq!(stats.files_unblocked, 1);
    assert_eq!(stats.files_no_ads, 0);
    assert_eq!(stats.files_failed, 0);
    assert_eq!(stats.permission_errors, 0);
}

#[test]
fn test_missing_target_scenario() {
    let mut config = fresh_config();
    let result = process_target("/tmp/gone", TargetKind::Missing, vec![], &mut config);
    match result {
        Err(UnblockerError::PathNotFound(p)) => assert_eq!(p, "/tmp/gone"),
        other => panic!("expected PathNotFound, got {:?}", other),
    }
}

#[test]
fn test_single_file_other_failure_is_hard_error() {
    let mut config = fresh_config();
    let events = vec![WalkEvent::File(Err(UnblockerError::Io("disk gone".to_string())))];
    let result = process_target("/tmp/f.txt", TargetKind::File, events, &mut config);
    match result {
        Err(UnblockerError::Io(m)) => assert_eq!(m, "disk gone"),
        other => panic!("expected Io error, got {:?}", other),
    }
}

#[test]
fn test_single_file_denied_is_recovered() {
    let mut config = fresh_config();
    let events = vec![WalkEvent::File(Err(UnblockerError::PermissionDenied(
        "/tmp/f.txt".to_string(),
    )))];
    let stats = process_target("/tmp/f.txt", TargetKind::File, events, &mut config).unwrap();
    assert_eq!(stats.files_processed, 1);
    assert_eq!(stats.files_failed, 1);
    assert_eq!(stats.permission_errors, 1);
}

#[test]
fn test_walk_absorbs_enumeration_failure() {
    let mut config = fresh_config();
    // One inaccessible subdirectory among three accessible files: every
    // file is still processed and counted.
    let events = vec![
        WalkEvent::File(Ok(true)),
        WalkEvent::EnumerationError { access_denied: true },
        WalkEvent::File(Ok(false)),
        WalkEvent::File(Err(UnblockerError::Io("short read".to_string()))),
    ];
    let stats = unblock_directory(&events, &mut config);
    assert_eq!(stats.files_processed, 3);
    assert_eq!(stats.files_unblocked, 1);
    assert_eq!(stats.files_no_ads, 1);
    assert_eq!(stats.files_failed, 2);
    assert_eq!(stats.permission_errors, 1);
    assert!(config.requires_elevation);
}

#[test]
fn test_walk_nondenied_enumeration_failure() {
    let mut config = fresh_config();
    let events = vec![WalkEvent::EnumerationError { access_denied: false }];
    let stats = unblock_directory(&events, &mut config);
    assert_eq!(stats.files_processed, 0);
    assert_eq!(stats.files_failed, 1);
    assert_eq!(stats.permission_errors, 0);
    assert!(!config.requires_elevation);
}

#[test]
fn test_walk_counts_balance() {
    let mut config = fresh_config();
    let events = vec![
        WalkEvent::File(Ok(true)),
        WalkEvent::File(Ok(true)),
        WalkEvent::File(Ok(false)),
        WalkEvent::File(Err(UnblockerError::PermissionDenied("/tmp/p".to_string()))),
        WalkEvent::File(Err(UnblockerError::Io("x".to_string()))),
    ];
    let stats = unblock_directory(&events, &mut config);
    assert_eq!(
        stats.files_processed,
        stats.files_unblocked + stats.files_no_ads + stats.files_failed
    );
    assert!(stats.permission_errors <= stats.files_failed);
    assert_eq!(stats.files_processed, 5);
    assert_eq!(stats.permission_errors, 1);
}

#[test]
fn test_record_walk_event_steps() {
    let mut config = fresh_config();
    let mut stats = UnblockStats::default();
    record_walk_event(&mut stats, &mut config, &WalkEvent::File(Ok(true)));
    record_walk_event(&mut stats, &mut config, &WalkEvent::File(Ok(false)));
    record_walk_event(
        &mut stats,
        &mut config,
        &WalkEvent::EnumerationError { access_denied: true },
    );
    assert_eq!(stats.files_processed, 2);
    assert_eq!(stats.files_unblocked, 1);
    assert_eq!(stats.files_no_ads, 1);
    assert_eq!(stats.files_failed, 1);
    assert_eq!(stats.permission_errors, 1);
    assert!(config.requires_elevation);
}

#[test]
fn test_empty_directory_walk() {
    let mut config = fresh_config();
    let stats = unblock_directory(&vec![], &mut config);
    assert_eq!(stats.files_processed, 0);
    assert_eq!(
        stats.summary(),
        "Processed 0 files: 0 unblocked, 0 had no ADS, 0 failed (0 permission errors)"
    );
    assert!(!config.requires_elevation);
}
