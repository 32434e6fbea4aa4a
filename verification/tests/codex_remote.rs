use wecode::codex_remote::{
    classify_reply, decline_server_request, effective_codex_model, extract_final_message,
    extract_thread_id, initialize_params_value, remote_daemon_start_command,
    remote_proxy_commands, rpc_request_value, thread_params_value, turn_params_value, turn_step,
    RemoteTurnState,
    RpcReply, TurnStep,
};
use wecode::default_config;
use wecode::json::JsonValue;

fn s(text: &str) -> JsonValue {
    JsonValue::Str(text.to_string())
}

fn obj(fields: Vec<(&str, JsonValue)>) -> JsonValue {
    JsonValue::Object(fields.into_iter().map(|(k, v)| (k.to_string(), v)).collect())
}

fn notification(method: &str, params: JsonValue) -> JsonValue {
    obj(vec![("method", s(method)), ("params", params)])
}

#[test]
fn proxy_commands_skip_blank_and_duplicate_fallback() {
    let mut config = default_config();
    config.codex.remote.proxy_command = " codex app-server proxy --sock /tmp/codex.sock ".to_string();
    config.codex.remote.fallback_proxy_command = "codex app-server".to_string();
    assert_eq!(
        remote_proxy_commands(&config),
        vec!["codex app-server proxy --sock /tmp/codex.sock", "codex app-server"]
    );

    config.codex.remote.fallback_proxy_command = "codex app-server proxy --sock /tmp/codex.sock".to_string();
    assert_eq!(
        remote_proxy_commands(&config),
        vec!["codex app-server proxy --sock /tmp/codex.sock"]
    );

    config.codex.remote.proxy_command = "  ".to_string();
    assert_eq!(
        remote_proxy_commands(&config),
        vec!["codex app-server proxy --sock /tmp/codex.sock"]
    );
}

#[test]
fn daemon_start_follows_auto_start() {
    let mut config = default_config();
    assert_eq!(
        remote_daemon_start_command(&config).as_deref(),
        Some("codex remote-control start --json")
    );
    config.codex.remote.auto_start = false;
    assert_eq!(remote_daemon_start_command(&config), None);
}

#[test]
fn requests_carry_jsonrpc_envelope() {
    let request = rpc_request_value(3, "initialize", initialize_params_value("0.1.0"));

    assert_eq!(
        request,
        obj(vec![
            ("jsonrpc", s("2.0")),
            ("id", JsonValue::Number(3)),
            ("method", s("initialize")),
            (
                "params",
                obj(vec![
                    (
                        "clientInfo",
                        obj(vec![("name", s("wecode")), ("title", s("Wecode")), ("version", s("0.1.0"))])
                    ),
                    ("capabilities", obj(vec![("experimentalApi", JsonValue::Bool(true))])),
                ])
            ),
        ])
    );
}

#[test]
fn thread_params_name_model_and_resume_thread() {
    let config = default_config();

    assert_eq!(
        effective_codex_model(&config, Some("wecode-codex/gpt-5.5")).as_deref(),
        Some("gpt-5.5")
    );
    assert_eq!(effective_codex_model(&config, Some("wecode-codex/default")), None);

    let params = thread_params_value(&config, Some("wecode-codex/gpt-5.5"), Some("t-1"), "/p", false);
    match params {
        JsonValue::Object(fields) => {
            assert!(fields.contains(&("cwd".to_string(), s("/p"))));
            assert!(fields.contains(&("model".to_string(), s("gpt-5.5"))));
            assert!(fields.contains(&("threadId".to_string(), s("t-1"))));
        }
        other => panic!("expected object, got {other:?}"),
    }
}

#[test]
fn thread_id_and_final_message_are_read_from_responses() {
    let response = obj(vec![("thread", obj(vec![("id", s("thr-1"))]))]);
    assert_eq!(extract_thread_id(&response).as_deref(), Some("thr-1"));

    let turn = obj(vec![(
        "items",
        JsonValue::Array(vec![
            obj(vec![("type", s("agentMessage")), ("text", s("working")), ("phase", s("commentary"))]),
            obj(vec![("type", s("agentMessage")), ("text", s("done")), ("phase", s("final_answer"))]),
            obj(vec![("type", s("agentMessage")), ("text", s("p.s."))]),
        ]),
    )]);
    assert_eq!(extract_final_message(Some(&turn)).as_deref(), Some("done"));
    assert_eq!(extract_final_message(None), None);
}

#[test]
fn codex_requests_are_declined() {
    let request = obj(vec![
        ("id", JsonValue::Number(7)),
        ("method", s("item/commandExecution/requestApproval")),
    ]);
    let reply = decline_server_request(&request).expect("decline");
    match reply {
        JsonValue::Object(fields) => {
            assert!(fields.contains(&("id".to_string(), JsonValue::Number(7))));
        }
        other => panic!("expected object, got {other:?}"),
    }
    assert!(decline_server_request(&obj(vec![("method", s("x"))])).is_none());
}

#[test]
fn replies_are_told_apart_from_requests_and_notifications() {
    let mine = obj(vec![("id", JsonValue::Number(2)), ("result", obj(vec![]))]);
    assert!(matches!(classify_reply(&mine, 2, "thread/start"), RpcReply::Mine(Ok(_))));

    let failed = obj(vec![("id", JsonValue::Number(2)), ("error", obj(vec![("code", JsonValue::Number(1))]))]);
    match classify_reply(&failed, 2, "thread/start") {
        RpcReply::Mine(Err(e)) => assert!(e.starts_with("Codex app-server `thread/start` failed: ")),
        _ => panic!("expected an error reply"),
    }

    let request = obj(vec![("id", JsonValue::Number(9)), ("method", s("item/fileChange/requestApproval"))]);
    assert!(matches!(classify_reply(&request, 2, "thread/start"), RpcReply::ServerRequest));

    let note = notification("thread/started", obj(vec![]));
    assert!(matches!(classify_reply(&note, 2, "thread/start"), RpcReply::Other));
}

#[test]
fn turn_collects_deltas_and_finishes_on_completion() {
    let mut state = RemoteTurnState::new();

    let delta = |text: &str| {
        notification(
            "item/agentMessage/delta",
            obj(vec![("itemId", s("m1")), ("delta", s(text))]),
        )
    };
    assert!(matches!(turn_step(&mut state, "thr-1", &delta("Hel")), TurnStep::Continue));
    assert!(matches!(turn_step(&mut state, "thr-1", &delta("lo")), TurnStep::Continue));
    assert_eq!(state.final_message().as_deref(), Some("Hello"));

    let other_thread = notification("turn/completed", obj(vec![("threadId", s("thr-2"))]));
    assert!(matches!(turn_step(&mut state, "thr-1", &other_thread), TurnStep::Continue));

    let done = notification("turn/completed", obj(vec![("threadId", s("thr-1"))]));
    match turn_step(&mut state, "thr-1", &done) {
        TurnStep::Finished(result) => {
            assert_eq!(result.thread_id, "thr-1");
            assert_eq!(result.final_message, "Hello");
        }
        _ => panic!("expected the turn to finish"),
    }
}

#[test]
fn completed_agent_message_replaces_streamed_text() {
    let mut state = RemoteTurnState::new();
    let item = notification(
        "item/completed",
        obj(vec![(
            "item",
            obj(vec![("type", s("agentMessage")), ("text", s("final words")), ("phase", s("final_answer"))]),
        )]),
    );
    state.observe_notification(&item);

    assert_eq!(state.final_message().as_deref(), Some("final words"));
}

#[test]
fn approval_requests_go_to_the_user_and_others_are_declined() {
    let mut state = RemoteTurnState::new();
    let approval = obj(vec![
        ("id", JsonValue::Number(11)),
        ("method", s("item/fileChange/requestApproval")),
    ]);
    assert!(matches!(turn_step(&mut state, "thr-1", &approval), TurnStep::AskUser));

    let other = obj(vec![("id", JsonValue::Number(12)), ("method", s("item/tool/requestUserInput"))]);
    match turn_step(&mut state, "thr-1", &other) {
        TurnStep::Respond(reply) => assert_eq!(
            reply,
            obj(vec![("jsonrpc", s("2.0")), ("id", JsonValue::Number(12)), ("result", JsonValue::Null)])
        ),
        _ => panic!("expected a declining response"),
    }
}

#[test]
fn yolo_sends_native_remote_yolo_settings() {
    let config = default_config();

    let thread = thread_params_value(&config, None, None, "/p", true);
    match thread {
        JsonValue::Object(fields) => {
            assert!(fields.contains(&("approvalPolicy".to_string(), s("never"))));
            assert!(fields.contains(&("sandbox".to_string(), s("danger-full-access"))));
        }
        other => panic!("expected object, got {other:?}"),
    }
    let turn = turn_params_value("thr", "go", "/p", None, true);
    match turn {
        JsonValue::Object(fields) => {
            assert!(fields.contains(&(
                "sandboxPolicy".to_string(),
                obj(vec![("type", s("dangerFullAccess"))])
            )));
        }
        other => panic!("expected object, got {other:?}"),
    }
    match turn_params_value("thr", "go", "/p", None, false) {
        JsonValue::Object(fields) => assert_eq!(fields.len(), 4),
        other => panic!("expected object, got {other:?}"),
    }
}
