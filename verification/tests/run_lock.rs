use wecode::default_config;
use wecode::run_lock::{lock_busy_message, lock_content, lock_pid, run_lock_path, stable_key_hash};
use wecode::yolo::{project_yolo_state_path, yolo_state_enabled, yolo_state_text};

#[test]
fn lock_file_is_named_by_the_hash_of_its_key() {
    let mut config = default_config();
    config.openclaw.state_dir = "/tmp/wecode-state".to_string();

    assert_eq!(stable_key_hash("thread-1"), "2c9d1afa3c382fdf");
    assert_eq!(stable_key_hash(""), "cbf29ce484222325");
    assert_eq!(
        run_lock_path(&config, None, "thread-1"),
        "/tmp/wecode-state/locks/codex-run-2c9d1afa3c382fdf.lock"
    );
    assert_eq!(
        run_lock_path(&default_config(), Some("/home/me"), "thread-1"),
        "/home/me/.wecode/openclaw-state/locks/codex-run-2c9d1afa3c382fdf.lock"
    );
}

#[test]
fn lock_content_names_its_owner() {
    let content = lock_content(4242, "thread-1");

    assert_eq!(content, "pid=4242\nkey=thread-1\n");
    assert_eq!(lock_pid(&content), Some(4242));
}

#[test]
fn stale_lock_content_is_read_back() {
    assert_eq!(lock_pid("pid=999999999\nkey=thread-1\n"), Some(999_999_999));
    assert_eq!(lock_pid("key=thread-1\npid= 17 \n"), Some(17));
    assert_eq!(lock_pid("pid=0\n"), None);
    assert_eq!(lock_pid("pid=99999999999\n"), None);
    assert_eq!(lock_pid("pid=abc\n"), None);
    assert_eq!(lock_pid(""), None);
}

#[test]
fn busy_lock_message_names_the_lock_and_cause() {
    let message = lock_busy_message("/tmp/l.lock", "held by pid 7");

    assert!(message.starts_with("Codex is already running for this session or project."));
    assert!(message.ends_with("Lock: /tmp/l.lock. Cause: held by pid 7"));
}

#[test]
fn yolo_state_reads_back_what_was_written() {
    assert!(yolo_state_enabled(yolo_state_text(true)));
    assert!(!yolo_state_enabled(yolo_state_text(false)));
    assert!(yolo_state_enabled("  ON \n"));
    assert!(yolo_state_enabled("1"));
    assert!(!yolo_state_enabled("yes"));
}

#[test]
fn yolo_state_file_is_named_by_project_hash() {
    let mut config = default_config();
    config.openclaw.state_dir = "/s".to_string();

    assert_eq!(
        project_yolo_state_path(&config, None, "/repo/wecode"),
        "/s/codex-yolo/e28385182d23882e.txt"
    );
}
