use wecode::native_approval::pending_native_approval_ids;
use wecode::run_lock::{lock_content, reclaims_lock};
use wecode::yolo::yolo_update;

#[test]
fn yolo_toggle_twice_gives_the_setting_back() {
    assert_eq!(yolo_update(None, None), (true, "true\n"));
    let (on, text) = yolo_update(Some("false\n"), None);
    assert_eq!((on, text), (true, "true\n"));
    let (off, text) = yolo_update(Some(text), None);
    assert_eq!((off, text), (false, "false\n"));
    assert_eq!(yolo_update(Some(" ON "), Some(true)), (true, "true\n"));
    assert_eq!(yolo_update(Some("true"), Some(false)), (false, "false\n"));
}

#[test]
fn live_lock_owner_blocks_and_dead_owner_is_reclaimed() {
    let content = lock_content(999_999_999, "thread-1");
    assert_eq!(content, "pid=999999999\nkey=thread-1\n");
    assert!(reclaims_lock(Some(&content), false));
    assert!(!reclaims_lock(Some(&content), true));
    assert!(!reclaims_lock(Some("garbage"), false));
    assert!(!reclaims_lock(None, false));
}

#[test]
fn pending_ids_of_distinct_files_are_distinct() {
    let entries = vec![
        ("appr-b.json".to_string(), true, None),
        ("appr-a.json".to_string(), true, None),
        ("appr-a.decision.json".to_string(), true, None),
    ];
    assert_eq!(pending_native_approval_ids(&entries, 0), vec!["appr-a".to_string(), "appr-b".to_string()]);
}
