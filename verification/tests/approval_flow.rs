use wecode::backend::with_yolo_flag;
use wecode::codex_remote::{
    completed_agent_message, daemon_failure_tolerated, falls_back_to_exec,
    final_answer_after_denial, remote_unavailable_message, uses_remote,
};
use wecode::json::JsonValue;
use wecode::messages::{
    approval_waiting_value, stop_message, stream_text_delta_value, unknown_command_message,
};
use wecode::native_approval::{
    approval_chat_message, approval_reply, approval_wait_step, awaiting_approval_message,
    create_native_approval_record, pending_native_approval_ids, ApprovalWait,
    NativeApprovalDecision,
};
use wecode::{default_config, CodexTransport};

fn s(text: &str) -> JsonValue {
    JsonValue::Str(text.to_string())
}

fn obj(fields: Vec<(&str, JsonValue)>) -> JsonValue {
    JsonValue::Object(fields.into_iter().map(|(k, v)| (k.to_string(), v)).collect())
}

fn strings(items: &[&str]) -> Vec<String> {
    items.iter().map(|s| s.to_string()).collect()
}

fn command_request() -> JsonValue {
    obj(vec![
        ("jsonrpc", s("2.0")),
        ("id", JsonValue::Number(99)),
        ("method", s("item/commandExecution/requestApproval")),
        (
            "params",
            obj(vec![
                ("threadId", s("thread-1")),
                ("turnId", s("turn-1")),
                ("command", s("cargo test")),
                ("cwd", s("/tmp/project")),
                ("availableDecisions", JsonValue::Array(vec![s("decline"), s("accept")])),
            ]),
        ),
    ])
}

#[test]
fn approval_chat_message_is_chinese_markdown_with_command_and_directory() {
    let config = default_config();
    let record = create_native_approval_record(&config, &command_request(), "appr-7".to_string(), 5)
        .expect("record");
    assert_eq!(
        approval_chat_message(&record),
        "# 权限审批\n\nCodex 需要执行命令，等待你的确认。\n\n**审批 ID**: `appr-7`\n**执行命令**: `cargo test`\n**目录**: `/tmp/project`\n\n回复 `yes` 批准，回复 `no` 拒绝"
    );
    assert_eq!(awaiting_approval_message(), "等待权限审批：请输入 `yes` or `no`");
}

#[test]
fn approval_reply_answers_under_the_request_id() {
    let config = default_config();
    let record = create_native_approval_record(&config, &command_request(), "appr-7".to_string(), 5)
        .expect("record");
    assert_eq!(
        approval_reply(&record, NativeApprovalDecision::Approve),
        obj(vec![
            ("jsonrpc", s("2.0")),
            ("id", JsonValue::Number(99)),
            ("result", obj(vec![("decision", s("accept"))])),
        ])
    );
    assert_eq!(
        approval_reply(&record, NativeApprovalDecision::Deny),
        obj(vec![
            ("jsonrpc", s("2.0")),
            ("id", JsonValue::Number(99)),
            ("result", obj(vec![("decision", s("decline"))])),
        ])
    );
}

#[test]
fn pending_ids_are_unexpired_record_files_in_order() {
    let entries = vec![
        ("appr-two.json".to_string(), true, Some("{}".to_string())),
        ("appr-one.json".to_string(), true, Some("{}".to_string())),
        ("appr-one.decision.json".to_string(), true, Some("{}".to_string())),
        ("appr-old.json".to_string(), true, Some(r#"{"expires_at_millis":1}"#.to_string())),
        ("appr-late.json".to_string(), true, Some(r#"{"expires_at_millis":5000}"#.to_string())),
        ("native".to_string(), false, None),
        ("notes.txt".to_string(), true, None),
    ];
    assert_eq!(
        pending_native_approval_ids(&entries, 100),
        strings(&["appr-late", "appr-one", "appr-two"])
    );
    assert_eq!(pending_native_approval_ids(&entries, 5000), strings(&["appr-one", "appr-two"]));
}

#[test]
fn approval_wait_reports_answer_timeout_and_progress() {
    assert!(matches!(
        approval_wait_step(10, 100, 50, Some(Ok(NativeApprovalDecision::Approve))),
        ApprovalWait::Decided(NativeApprovalDecision::Approve)
    ));
    assert!(matches!(
        approval_wait_step(10, 100, 50, Some(Err("bad".to_string()))),
        ApprovalWait::Failed(message) if message == "bad"
    ));
    assert!(matches!(approval_wait_step(100, 100, 50, None), ApprovalWait::TimedOut));
    assert!(matches!(approval_wait_step(60, 100, 50, None), ApprovalWait::ReportProgress));
    assert!(matches!(approval_wait_step(10, 100, 50, None), ApprovalWait::Sleep));
}

#[test]
fn keepalive_and_prompt_lines_are_stream_events() {
    assert_eq!(approval_waiting_value(), obj(vec![("wecode_event", s("approval_waiting"))]));
    assert_eq!(
        stream_text_delta_value("hi"),
        obj(vec![
            ("type", s("stream_event")),
            (
                "event",
                obj(vec![
                    ("type", s("content_block_delta")),
                    ("index", JsonValue::Number(0)),
                    ("delta", obj(vec![("type", s("text_delta")), ("text", s("hi"))])),
                ])
            ),
        ])
    );
}

#[test]
fn denial_keeps_a_final_answer_but_not_a_running_message() {
    let running = obj(vec![(
        "items",
        JsonValue::Array(vec![obj(vec![
            ("type", s("agentMessage")),
            ("text", s("I will create the file now.")),
            ("phase", s("running")),
        ])]),
    )]);
    assert_eq!(final_answer_after_denial(Some(&running)), "已拒绝权限请求。");
    let answered = obj(vec![(
        "items",
        JsonValue::Array(vec![obj(vec![
            ("type", s("agentMessage")),
            ("text", s("Not changed.")),
            ("phase", s("final_answer")),
        ])]),
    )]);
    assert_eq!(final_answer_after_denial(Some(&answered)), "Not changed.");
    assert_eq!(final_answer_after_denial(None), "已拒绝权限请求。");
}

#[test]
fn completed_agent_messages_are_read_with_their_phase() {
    let message = obj(vec![
        ("method", s("item/completed")),
        (
            "params",
            obj(vec![(
                "item",
                obj(vec![("type", s("agentMessage")), ("id", s("m1")), ("text", s("step one")), ("phase", s("commentary"))]),
            )]),
        ),
    ]);
    assert_eq!(completed_agent_message(&message), Some(("step one".to_string(), false)));
    assert_eq!(completed_agent_message(&obj(vec![("method", s("turn/started"))])), None);
}

#[test]
fn transport_decides_remote_first_and_fallback() {
    assert!(!uses_remote(CodexTransport::Exec, true));
    assert!(uses_remote(CodexTransport::Remote, true));
    assert!(uses_remote(CodexTransport::RemoteStrict, true));
    assert!(!uses_remote(CodexTransport::Remote, false));
    assert!(falls_back_to_exec(CodexTransport::Remote));
    assert!(!falls_back_to_exec(CodexTransport::RemoteStrict));
    assert!(!falls_back_to_exec(CodexTransport::Exec));
}

#[test]
fn daemon_failure_is_tolerated_with_a_way_to_reach_codex() {
    let mut config = default_config();
    config.codex.transport = CodexTransport::RemoteStrict;
    config.codex.remote.fallback_proxy_command = "  ".to_string();
    assert!(!daemon_failure_tolerated(&config));
    config.codex.remote.fallback_proxy_command = "codex app-server".to_string();
    assert!(daemon_failure_tolerated(&config));
    config.codex.transport = CodexTransport::Remote;
    config.codex.remote.fallback_proxy_command = String::new();
    assert!(daemon_failure_tolerated(&config));
}

#[test]
fn unavailable_remote_lists_each_attempt() {
    assert_eq!(
        remote_unavailable_message(&strings(&["daemon start: boom", "proxy `x`: closed"])),
        "Codex remote app-server is unavailable: daemon start: boom; proxy `x`: closed"
    );
    assert_eq!(remote_unavailable_message(&Vec::new()), "Codex remote app-server is unavailable: ");
}

#[test]
fn exec_fallback_runs_codex_in_yolo_mode() {
    assert_eq!(
        with_yolo_flag(strings(&["exec", "--json", "-o", "/tmp/o", "--", "hi"])),
        strings(&["exec", "--yolo", "--json", "-o", "/tmp/o", "--", "hi"])
    );
    assert_eq!(
        with_yolo_flag(strings(&["exec", "resume", "--json", "t-1"])),
        strings(&["exec", "resume", "--yolo", "--json", "t-1"])
    );
    assert_eq!(with_yolo_flag(strings(&["exec"])), strings(&["exec", "--yolo"]));
    assert_eq!(with_yolo_flag(strings(&["review"])), strings(&["review"]));
}

#[test]
fn local_replies_for_stop_and_unknown_commands() {
    assert_eq!(unknown_command_message(), "未定义的命令！可以使用:help查看命令");
    assert!(stop_message(true).contains("已停止"));
    assert!(!stop_message(false).contains("已停止"));
}
