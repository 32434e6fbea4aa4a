use wecode::sessions::{read_codex_session, truncate_single_line};
use wecode::{list_all_codex_sessions, list_codex_sessions, CodexSessionSummary};

fn session_lines(id: &str, timestamp: &str, cwd: &str, originator: &str, title: &str) -> Vec<String> {
    vec![
        format!(
            r#"{{"timestamp":"{timestamp}","type":"session_meta","payload":{{"id":"{id}","timestamp":"{timestamp}","cwd":"{cwd}","originator":"{originator}"}}}}"#
        ),
        format!(
            r#"{{"timestamp":"{timestamp}","type":"event_msg","payload":{{"type":"user_message","message":"{title}"}}}}"#
        ),
    ]
}

fn candidate(lines: Vec<String>) -> (String, CodexSessionSummary) {
    let summary = read_codex_session(&lines).expect("session summary");
    (summary.cwd.clone(), summary)
}

fn raw_lines(text: &str) -> Vec<String> {
    text.lines().map(|line| line.to_string()).collect()
}

#[test]
fn lists_codex_sessions_for_current_project_only() {
    let candidates = vec![
        candidate(session_lines(
            "019e746e-4c43-74c2-b47a-424fd4f025c7",
            "2026-05-29T15:50:46.110Z",
            "/repo/wecode",
            "codex-tui",
            "new project session",
        )),
        candidate(session_lines(
            "019e6f79-2feb-7f42-9880-629b573262f5",
            "2026-05-28T16:44:33.000Z",
            "/repo/wecode",
            "codex_exec",
            "old project session",
        )),
        candidate(session_lines(
            "019e73f3-a1d1-7f11-ac5f-8029b86f53a7",
            "2026-05-29T13:36:47.081Z",
            "/repo/other",
            "codex-tui",
            "other project session",
        )),
    ];

    let sessions = list_codex_sessions(candidates, "/repo/wecode", &[], 10);

    assert_eq!(sessions.len(), 2);
    assert_eq!(sessions[0].id, "019e746e-4c43-74c2-b47a-424fd4f025c7");
    assert_eq!(sessions[0].title, "new project session");
    assert_eq!(sessions[0].initial_prompt, "new project session");
    assert_eq!(sessions[1].id, "019e6f79-2feb-7f42-9880-629b573262f5");
}

#[test]
fn lists_all_codex_sessions_without_project_filter() {
    let candidates = vec![
        candidate(session_lines(
            "019e73f3-a1d1-7f11-ac5f-8029b86f53a7",
            "2026-05-29T13:36:47.081Z",
            "/repo/other",
            "codex-tui",
            "other project session",
        )),
        candidate(session_lines(
            "019e746e-4c43-74c2-b47a-424fd4f025c7",
            "2026-05-29T15:50:46.110Z",
            "/repo/wecode",
            "codex-tui",
            "project session",
        )),
    ];

    let sessions = list_all_codex_sessions(candidates, &[], 10);

    assert_eq!(sessions.len(), 2);
    assert_eq!(sessions[0].id, "019e746e-4c43-74c2-b47a-424fd4f025c7");
    assert_eq!(sessions[1].id, "019e73f3-a1d1-7f11-ac5f-8029b86f53a7");
}

#[test]
fn session_title_skips_injected_context_when_state_db_is_unavailable() {
    let lines = raw_lines(
        r##"{"timestamp":"2026-05-30T00:19:26.118Z","type":"session_meta","payload":{"id":"019e763f-ff0c-7683-a4e9-a17e2bf964fb","timestamp":"2026-05-30T00:19:26.118Z","cwd":"/repo/wecode","originator":"codex_exec"}}
{"timestamp":"2026-05-30T00:19:27.044Z","type":"response_item","payload":{"type":"message","role":"user","content":[{"type":"input_text","text":"# AGENTS.md instructions for /repo/wecode\n\n<INSTRUCTIONS>local instructions</INSTRUCTIONS>"},{"type":"input_text","text":"<environment_context>\n  <cwd>/repo/wecode</cwd>\n</environment_context>"}]}}
{"timestamp":"2026-05-30T00:19:27.045Z","type":"event_msg","payload":{"type":"user_message","message":"/init"}}"##,
    );

    let sessions = list_codex_sessions(vec![candidate(lines)], "/repo/wecode", &[], 10);

    assert_eq!(sessions.len(), 1);
    assert_eq!(sessions[0].title, "/init");
    assert_eq!(sessions[0].initial_prompt, "/init");
}

#[test]
fn session_title_strips_openclaw_message_metadata_when_state_db_is_unavailable() {
    let lines = raw_lines(
        r##"{"timestamp":"2026-05-30T00:19:26.118Z","type":"session_meta","payload":{"id":"019e763f-ff0c-7683-a4e9-a17e2bf964fb","timestamp":"2026-05-30T00:19:26.118Z","cwd":"/repo/wecode","originator":"codex_exec"}}
{"timestamp":"2026-05-30T00:19:27.044Z","type":"event_msg","payload":{"type":"user_message","message":"Conversation info (untrusted metadata):\n```json\n{\"message_id\":\"om_prompt\"}\n```\n\n[message_id: om_prompt]\nou_08e494561f9ff0e2bd8015472c28e6e5: 获取当前项目的sessions\n第二行"}}"##,
    );

    let sessions = list_codex_sessions(vec![candidate(lines)], "/repo/wecode", &[], 10);

    assert_eq!(sessions.len(), 1);
    assert_eq!(sessions[0].title, "获取当前项目的sessions 第二行");
    assert_eq!(sessions[0].initial_prompt, "获取当前项目的sessions 第二行");
}

#[test]
fn session_title_strips_openclaw_reply_prefix_when_state_db_is_unavailable() {
    let lines = raw_lines(
        r##"{"timestamp":"2026-05-30T00:19:26.118Z","type":"session_meta","payload":{"id":"019e763f-ff0c-7683-a4e9-a17e2bf964fb","timestamp":"2026-05-30T00:19:26.118Z","cwd":"/repo/wecode","originator":"codex_exec"}}
{"timestamp":"2026-05-30T00:19:27.044Z","type":"event_msg","payload":{"type":"user_message","message":"[Replying to: \":resume \"]\n\n:resume"}}"##,
    );

    let sessions = list_codex_sessions(vec![candidate(lines)], "/repo/wecode", &[], 10);

    assert_eq!(sessions.len(), 1);
    assert_eq!(sessions[0].title, ":resume");
    assert_eq!(sessions[0].initial_prompt, ":resume");
}

#[test]
fn state_database_titles_replace_prompt_titles_and_limit_applies() {
    let candidates = vec![
        candidate(session_lines("a", "2026-05-01T00:00:00.000Z", "/p", "codex-tui", "first")),
        candidate(session_lines("b", "2026-05-03T00:00:00.000Z", "/p", "codex-tui", "second")),
        candidate(session_lines("c", "2026-05-02T00:00:00.000Z", "/p", "codex-tui", "third")),
    ];
    let rows = vec![("c".to_string(), "Named in the database".to_string())];

    let sessions = list_codex_sessions(candidates, "/p", &rows, 2);

    assert_eq!(sessions.len(), 2);
    assert_eq!(sessions[0].id, "b");
    assert_eq!(sessions[1].id, "c");
    assert_eq!(sessions[1].title, "Named in the database");
    assert_eq!(sessions[1].initial_prompt, "third");
}

#[test]
fn session_without_meta_is_skipped() {
    let lines = vec![
        r#"{"type":"event_msg","payload":{"type":"user_message","message":"hi"}}"#.to_string(),
    ];
    assert!(read_codex_session(&lines).is_none());
}

#[test]
fn single_line_truncation_collapses_whitespace() {
    assert_eq!(truncate_single_line("a  b\n c", 10), "a b c");
    assert_eq!(truncate_single_line("abcdefgh", 5), "abcde...");
}
