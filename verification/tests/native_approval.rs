use wecode::json::JsonValue;
use wecode::native_approval::{
    approval_response_for_decision, approval_wait_progress_interval_ms, compact_text,
    create_native_approval_record, effective_approval_timeout_ms, native_approval_path,
    native_approvals_dir, requested_permissions, NativeApprovalDecision,
};
use wecode::default_config;

fn s(text: &str) -> JsonValue {
    JsonValue::Str(text.to_string())
}

fn obj(fields: Vec<(&str, JsonValue)>) -> JsonValue {
    JsonValue::Object(
        fields
            .into_iter()
            .map(|(k, v)| (k.to_string(), v))
            .collect(),
    )
}

fn arr(items: Vec<JsonValue>) -> JsonValue {
    JsonValue::Array(items)
}

#[test]
fn command_approval_accept_respects_available_decisions() {
    let params = obj(vec![
        ("threadId", s("thread-1")),
        ("turnId", s("turn-1")),
        ("command", arr(vec![s("npm"), s("install")])),
        ("cwd", s("/tmp/project")),
        ("availableDecisions", arr(vec![s("decline"), s("accept")])),
    ]);
    let response = approval_response_for_decision(
        "item/commandExecution/requestApproval",
        &params,
        NativeApprovalDecision::Approve,
    );

    assert_eq!(response, obj(vec![("decision", s("accept"))]));
}

#[test]
fn command_approval_denies_with_decline() {
    let params = obj(vec![(
        "availableDecisions",
        arr(vec![s("cancel"), s("decline")]),
    )]);
    let response = approval_response_for_decision(
        "item/commandExecution/requestApproval",
        &params,
        NativeApprovalDecision::Deny,
    );

    assert_eq!(response, obj(vec![("decision", s("decline"))]));
}

#[test]
fn permissions_approval_grants_requested_network_and_filesystem_for_turn() {
    let params = obj(vec![(
        "permissions",
        obj(vec![
            ("network", obj(vec![("allow", arr(vec![s("registry.npmjs.org")]))])),
            ("fileSystem", obj(vec![("write", arr(vec![s("/tmp/project")]))])),
            ("other", obj(vec![("ignored", JsonValue::Bool(true))])),
        ]),
    )]);
    let granted = obj(vec![
        ("network", obj(vec![("allow", arr(vec![s("registry.npmjs.org")]))])),
        ("fileSystem", obj(vec![("write", arr(vec![s("/tmp/project")]))])),
    ]);

    assert_eq!(requested_permissions(&params), granted);
    assert_eq!(
        approval_response_for_decision(
            "item/permissions/requestApproval",
            &params,
            NativeApprovalDecision::Approve,
        ),
        obj(vec![("permissions", granted), ("scope", s("turn"))])
    );
}

#[test]
fn native_record_is_written_under_native_approval_dir() {
    let mut config = default_config();
    config.openclaw.state_dir = "/tmp/wecode-test/state".to_string();
    let request = obj(vec![
        ("jsonrpc", s("2.0")),
        ("id", JsonValue::Number(99)),
        ("method", s("item/commandExecution/requestApproval")),
        (
            "params",
            obj(vec![
                ("threadId", s("thread-1")),
                ("turnId", s("turn-1")),
                ("command", s("cargo test")),
                ("cwd", s("/tmp/project")),
            ]),
        ),
    ]);

    let record = create_native_approval_record(&config, &request, "appr-0001".to_string(), 1_000)
        .expect("record");

    assert!(record.approval_id.starts_with("appr-"));
    assert_eq!(record.request_method, "item/commandExecution/requestApproval");
    assert_eq!(record.jsonrpc_id, JsonValue::Number(99));
    assert_eq!(record.thread_id.as_deref(), Some("thread-1"));
    assert_eq!(record.command.as_deref(), Some("cargo test"));
    assert_eq!(
        native_approval_path(&config, None, &record.approval_id),
        "/tmp/wecode-test/state/approvals/native/appr-0001.json"
    );
    assert_eq!(
        native_approvals_dir(&config, None),
        "/tmp/wecode-test/state/approvals/native"
    );
    assert!(record.prompt.contains(":approve "));
    assert!(record.prompt.contains(":deny "));
    assert!(record.prompt.contains("cargo test"));
    assert_eq!(record.created_at_millis, 1_000);
    assert_eq!(record.expires_at_millis, 601_000);
}

#[test]
fn approval_request_without_method_or_id_is_refused() {
    let config = default_config();
    let no_method = obj(vec![("id", JsonValue::Number(1))]);
    let no_id = obj(vec![("method", s("item/fileChange/requestApproval"))]);

    assert_eq!(
        create_native_approval_record(&config, &no_method, "appr-x".to_string(), 0).err(),
        Some("Codex approval request did not include method".to_string())
    );
    assert_eq!(
        create_native_approval_record(&config, &no_id, "appr-x".to_string(), 0).err(),
        Some("Codex approval request did not include id".to_string())
    );
}

#[test]
fn unsupported_method_is_declined_with_reason() {
    let params = obj(vec![]);
    for decision in [NativeApprovalDecision::Approve, NativeApprovalDecision::Deny] {
        assert_eq!(
            approval_response_for_decision("item/other/requestApproval", &params, decision),
            obj(vec![
                ("decision", s("decline")),
                ("reason", s("unsupported Codex approval method")),
            ])
        );
    }
}

#[test]
fn denied_permissions_grant_nothing() {
    let params = obj(vec![(
        "permissions",
        obj(vec![("network", obj(vec![("allow", arr(vec![s("x")]))]))]),
    )]);

    assert_eq!(
        approval_response_for_decision(
            "item/permissions/requestApproval",
            &params,
            NativeApprovalDecision::Deny,
        ),
        obj(vec![("permissions", obj(vec![])), ("scope", s("turn"))])
    );
}

#[test]
fn approval_timeout_is_capped_below_the_cli_watchdog() {
    let mut config = default_config();
    assert_eq!(effective_approval_timeout_ms(&config), 600_000);
    assert_eq!(approval_wait_progress_interval_ms(&config), 60_000);

    config.openclaw.cli_no_output_timeout_ms = 30_000;
    assert_eq!(effective_approval_timeout_ms(&config), 29_000);
    assert_eq!(approval_wait_progress_interval_ms(&config), 2_900);

    config.codex.remote.approval_timeout_seconds = 0;
    assert_eq!(effective_approval_timeout_ms(&config), 1_000);
    assert_eq!(approval_wait_progress_interval_ms(&config), 1_000);
}

#[test]
fn compact_text_marks_truncation() {
    assert_eq!(compact_text("abcdef", 3), "abc...");
    assert_eq!(compact_text("abc", 3), "abc");
}
