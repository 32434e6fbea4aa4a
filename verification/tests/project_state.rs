use wecode::default_config;
use wecode::native_approval::NativeApprovalDecision;
use wecode::project::{
    answer_target, approval_not_found_message, cat_message, cd_message, child_pids_from_listing,
    choose_node_bin_dir, codex_exec_display, compact_home_path, custom_approval_path,
    custom_denied_message, ls_message, model_override_path, model_set_message,
    native_decision_message, node_bin_dir_candidates, node_version_supported, not_a_directory,
    not_a_file, path_with_prepend, project_cwd_override_path, project_fresh_next_path,
    project_codex_model, project_key, project_path, project_state_error, run_lock_key, select_resume_session,
    shell_program_and_args, state_value, versioned_node_bin_dirs,
};
use wecode::CodexSessionSummary;

fn session(id: &str, cwd: &str) -> CodexSessionSummary {
    CodexSessionSummary {
        id: id.to_string(),
        timestamp: "2026-01-01T00:00:00Z".to_string(),
        cwd: cwd.to_string(),
        originator: "codex_cli_rs".to_string(),
        title: format!("title {id}"),
        initial_prompt: "hi".to_string(),
    }
}

#[test]
fn state_files_live_under_the_state_dir() {
    let mut cfg = default_config();
    cfg.openclaw.state_dir = "~/.wecode-state".to_string();
    assert_eq!(
        project_cwd_override_path(&cfg, Some("/home/u")),
        "/home/u/.wecode-state/codex-cwd.txt"
    );
    assert_eq!(
        project_fresh_next_path(&cfg, Some("/home/u")),
        "/home/u/.wecode-state/codex-fresh-next.txt"
    );
    assert_eq!(
        custom_approval_path(&cfg, Some("/home/u"), "appr-1"),
        "/home/u/.wecode-state/approvals/appr-1.json"
    );
    let model_path = model_override_path(&cfg, Some("/home/u"), "/repo/a");
    assert!(model_path.starts_with("/home/u/.wecode-state/"), "{model_path}");
    assert_ne!(model_path, model_override_path(&cfg, Some("/home/u"), "/repo/b"));
}

#[test]
fn state_error_names_the_action_and_the_state_dir() {
    let mut cfg = default_config();
    cfg.openclaw.state_dir = "/srv/state".to_string();
    assert_eq!(
        project_state_error(&cfg, None, "change Codex project directory", "disk full"),
        "Cannot change Codex project directory: Wecode cannot write state files under openclaw.stateDir `/srv/state`. Check the configured path and permissions for this user. Cause: disk full"
    );
}

#[test]
fn state_value_trims_and_drops_blank_text() {
    assert_eq!(state_value("  /repo/x \n"), Some("/repo/x".to_string()));
    assert_eq!(state_value(" \n\t"), None);
}

#[test]
fn project_and_lock_keys_prefer_the_most_specific_value() {
    assert_eq!(project_key(Some("/repo"), &Some("/other".to_string())), "/repo");
    assert_eq!(project_key(None, &Some("/other".to_string())), "/other");
    assert_eq!(project_key(None, &None), ".");
    assert_eq!(run_lock_key(Some("thread-1"), Some("/repo"), &None), "thread-1");
    assert_eq!(run_lock_key(None, Some("/repo"), &None), "/repo");
}

#[test]
fn project_paths_are_taken_from_the_project_directory() {
    assert_eq!(project_path("/repo", " src ", Some("/home/u")), "/repo/src");
    assert_eq!(project_path("/repo", "/etc", Some("/home/u")), "/etc");
    assert_eq!(project_path("/repo", "~/notes", Some("/home/u")), "/home/u/notes");
}

#[test]
fn answer_target_picks_the_named_or_the_only_waiting_approval() {
    let none: Vec<String> = Vec::new();
    let one = vec!["appr-1".to_string()];
    let two = vec!["appr-1".to_string(), "appr-2".to_string()];
    assert_eq!(answer_target(Some("appr-9"), &two), Ok("appr-9".to_string()));
    assert_eq!(answer_target(None, &one), Ok("appr-1".to_string()));
    assert_eq!(answer_target(None, &none), Err("No approval is waiting.".to_string()));
    assert_eq!(
        answer_target(None, &two),
        Err("Several approvals are waiting; answer one with :approve <id> or :deny <id>: appr-1, appr-2"
            .to_string())
    );
}

#[test]
fn local_replies_have_their_fixed_wording() {
    assert_eq!(
        cd_message("/repo"),
        "Codex project directory set to:\n/repo\nNext Codex request will start a fresh thread for this project."
    );
    assert_eq!(cat_message("/repo/a.txt", "hello"), "File: /repo/a.txt\n\nhello");
    assert_eq!(not_a_directory("/repo/a.txt"), "/repo/a.txt is not a directory");
    assert_eq!(not_a_file("/repo"), "/repo is not a file");
    assert_eq!(
        native_decision_message("appr-1", NativeApprovalDecision::Approve),
        "Approved Codex approval appr-1. Codex will continue in the original turn."
    );
    assert_eq!(
        native_decision_message("appr-1", NativeApprovalDecision::Deny),
        "Denied Codex approval appr-1. Codex will continue in the original turn."
    );
    assert_eq!(approval_not_found_message("appr-1"), "Approval appr-1 was not found.");
    assert_eq!(custom_denied_message("appr-1"), "Denied approval appr-1.");
    assert_eq!(
        model_set_message(Some("gpt-5.5"), "/repo"),
        "Codex model set to `gpt-5.5` for this project.\nProject: /repo"
    );
    assert_eq!(
        model_set_message(None, "/repo"),
        "Codex model override cleared for this project.\nProject: /repo"
    );
}

#[test]
fn ls_lists_entries_by_path_with_their_kind() {
    let entries = vec![
        ("/repo/src".to_string(), ("/repo/src".to_string(), true)),
        ("/repo/README.md".to_string(), ("/repo/README.md".to_string(), false)),
    ];
    assert_eq!(
        ls_message("/repo", entries),
        "Directory: /repo\n[file] /repo/README.md\n[dir]  /repo/src"
    );
    assert_eq!(ls_message("/empty", Vec::new()), "Directory: /empty\n(empty)");
}

#[test]
fn shell_commands_run_under_a_login_shell() {
    let (program, args) = shell_program_and_args("ls -al");
    assert_eq!(program, "sh");
    assert_eq!(args, vec!["-lc".to_string(), "ls -al".to_string()]);
}

#[test]
fn path_prepend_expands_home_and_keeps_the_existing_path_last() {
    let paths = vec!["~/.local/bin".to_string(), "/opt/node/bin".to_string()];
    assert_eq!(
        path_with_prepend(&paths, Some("/home/u"), Some("/usr/bin:/bin")),
        "/home/u/.local/bin:/opt/node/bin:/usr/bin:/bin"
    );
    assert_eq!(path_with_prepend(&paths, Some("/home/u"), None), "/home/u/.local/bin:/opt/node/bin");
}

#[test]
fn exec_display_shows_the_command_that_runs() {
    assert_eq!(
        codex_exec_display(None, "/tmp/out.txt", Some("gpt-5.5"), "workspace-write"),
        "$ codex exec --yolo --json -o /tmp/out.txt -m gpt-5.5 -s workspace-write"
    );
    assert_eq!(
        codex_exec_display(Some("thread-1"), "/tmp/out.txt", None, "workspace-write"),
        "$ codex exec resume --yolo --json -o /tmp/out.txt thread-1"
    );
}

#[test]
fn node_versions_from_22_19_are_supported() {
    assert!(node_version_supported(Some((24, 0, 0))));
    assert!(node_version_supported(Some((22, 19, 0))));
    assert!(!node_version_supported(Some((22, 18, 9))));
    assert!(!node_version_supported(None));
}

#[test]
fn node_dir_choice_prefers_configuration_then_path_then_candidates() {
    let probed = vec![
        ("/old/bin".to_string(), Some((20, 1, 0))),
        ("/new/bin".to_string(), Some((24, 1, 0))),
    ];
    assert_eq!(
        choose_node_bin_dir(&Some("~/node/bin".to_string()), Some("/home/u"), None, &probed),
        Some("/home/u/node/bin".to_string())
    );
    assert_eq!(choose_node_bin_dir(&None, Some("/home/u"), Some((24, 0, 0)), &probed), None);
    assert_eq!(
        choose_node_bin_dir(&None, Some("/home/u"), Some((20, 0, 0)), &probed),
        Some("/new/bin".to_string())
    );
    assert_eq!(choose_node_bin_dir(&None, None, None, &probed[..1]), None);
}

#[test]
fn node_candidates_list_fixed_then_home_directories() {
    let found = node_bin_dir_candidates(
        Some("/home/u"),
        vec!["/home/u/.local/share/mise/installs/node/24/bin".to_string()],
        vec![],
    );
    assert_eq!(found[0], "/opt/homebrew/opt/node/bin");
    assert_eq!(found.len(), 8);
    assert_eq!(found[7], "/home/u/.volta/bin");
    assert_eq!(node_bin_dir_candidates(None, vec!["x".to_string()], vec![]).len(), 6);
}

#[test]
fn versioned_dirs_put_the_newest_name_first() {
    assert_eq!(
        versioned_node_bin_dirs("/home/u/.nvm/versions/node", vec!["v20.1.0".to_string(), "v24.1.0".to_string()]),
        vec![
            "/home/u/.nvm/versions/node/v24.1.0/bin".to_string(),
            "/home/u/.nvm/versions/node/v20.1.0/bin".to_string()
        ]
    );
}

#[test]
fn resume_selection_finds_the_named_or_newest_session() {
    let sessions = vec![session("new", "/repo/a"), session("old", "/repo/b")];
    assert_eq!(select_resume_session(sessions.clone(), Some("old")), Ok(session("old", "/repo/b")));
    assert_eq!(select_resume_session(sessions.clone(), None), Ok(session("new", "/repo/a")));
    let bare = select_resume_session(sessions, Some("unknown")).expect("bare session");
    assert_eq!(bare.id, "unknown");
    assert!(bare.cwd.is_empty() && bare.title.is_empty());
    assert_eq!(
        select_resume_session(Vec::new(), None),
        Err("No Codex sessions found. Run Codex once first, or pass `:resume <session_id>`.".to_string())
    );
}

#[test]
fn home_paths_are_shown_with_a_tilde() {
    assert_eq!(compact_home_path("/home/u", Some("/home/u")), "~");
    assert_eq!(compact_home_path("/home/u/repo", Some("/home/u")), "~/repo");
    assert_eq!(compact_home_path("/home/user2", Some("/home/u")), "/home/user2");
    assert_eq!(compact_home_path("/home/u/repo", None), "/home/u/repo");
}

#[test]
fn child_pid_listing_skips_blank_invalid_and_own_lines() {
    assert_eq!(child_pids_from_listing("12\n  34 \n\nabc\n0\n99\n", 99), vec![12, 34]);
    assert_eq!(child_pids_from_listing("", 1), Vec::<u32>::new());
}

#[test]
fn written_project_state_reads_back() {
    assert_eq!(state_value("/home/u/repo"), Some("/home/u/repo".to_string()));
    let mut cfg = default_config();
    cfg.codex.model = Some("gpt-configured".to_string());
    assert_eq!(
        project_codex_model(Some("gpt-5.5"), &cfg, Some("wecode-codex/gpt-other")),
        Some("gpt-5.5".to_string())
    );
    assert_eq!(project_codex_model(Some("  \n"), &cfg, None), Some("gpt-configured".to_string()));
    assert_eq!(project_codex_model(None, &cfg, None), Some("gpt-configured".to_string()));
}
