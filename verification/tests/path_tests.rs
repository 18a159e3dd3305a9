use unblocker::{get_ads_path, is_safe_path, plan_unblock, validate_path, UnblockAction};

#[test]
fn test_validate_path_traversal() {
    assert!(validate_path("../../../etc/passwd").is_err());
    assert!(validate_path("..\\..\\windows\\system32").is_err());
    assert!(validate_path("normal/path/file.txt").is_ok());
}

#[test]
fn test_validate_path_invalid_chars() {
    assert!(validate_path("file<.txt").is_err());
    assert!(validate_path("file>.txt").is_err());
    assert!(validate_path("file|.txt").is_err());
    assert!(validate_path("file\0.txt").is_err());
}

#[test]
fn test_get_ads_path() {
    let ads_path = get_ads_path("C:\\test\\file.txt").unwrap();
    assert_eq!(ads_path, "C:\\test\\file.txt:Zone.Identifier");
}

#[test]
fn test_is_safe_path() {
    assert!(!is_safe_path("C:\\Windows\\System32\\kernel32.dll"));
    assert!(!is_safe_path("C:\\Windows\\SysWOW64\\ntdll.dll"));
    assert!(is_safe_path("C:\\Users\\test\\file.txt"));
}

#[test]
fn test_validate_path_returns_input() {
    let p = validate_path("C:\\Users\\test\\file.txt").unwrap();
    assert_eq!(p, "C:\\Users\\test\\file.txt");
}

#[test]
fn test_validate_path_error_messages() {
    match validate_path("../secret") {
        Err(unblocker::UnblockerError::InvalidPath(m)) => {
            assert_eq!(m, "Path contains directory traversal sequences");
        }
        other => panic!("expected InvalidPath, got {:?}", other),
    }
    match validate_path("file|name") {
        Err(unblocker::UnblockerError::InvalidPath(m)) => {
            assert_eq!(m, "Path contains invalid characters");
        }
        other => panic!("expected InvalidPath, got {:?}", other),
    }
}

#[test]
fn test_is_safe_path_raw_device() {
    assert!(!is_safe_path("\\\\?\\C:\\Users\\test\\file.txt"));
    assert!(!is_safe_path("C:\\Program Files\\Windows Defender\\x.dll"));
}

#[test]
fn test_plan_unblock_reject_before_any_access() {
    // A traversal sequence is rejected purely by inspection of the text.
    assert!(matches!(plan_unblock("../secret"), UnblockAction::Reject));
    assert!(matches!(plan_unblock("file<.txt"), UnblockAction::Reject));
}

#[test]
fn test_plan_unblock_skip_system_path() {
    assert!(matches!(
        plan_unblock("C:\\Windows\\System32\\kernel32.dll"),
        UnblockAction::Skip
    ));
}

#[test]
fn test_plan_unblock_remove_marker_path() {
    match plan_unblock("C:\\Users\\test\\file.txt") {
        UnblockAction::Remove(ads) => {
            assert_eq!(ads, "C:\\Users\\test\\file.txt:Zone.Identifier");
        }
        other => panic!("expected Remove, got {:?}", other),
    }
}
