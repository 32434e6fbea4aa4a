use wecode::backend::review_command_spec;
use wecode::codex_remote::{
    finished_turn_result, next_prompt_run_action, next_proxy_attempt, parse_rpc_line,
    remote_turn_error, turn_start_answer, CodexRemoteRunResult, PromptRunAction, PromptRunEvent,
};
use wecode::json::JsonValue;
use wecode::messages::input_error_reply;
use wecode::{default_config, prepare_backend_input, CodexTransport};

fn s(text: &str) -> JsonValue {
    JsonValue::Str(text.to_string())
}

fn obj(fields: Vec<(&str, JsonValue)>) -> JsonValue {
    JsonValue::Object(fields.into_iter().map(|(k, v)| (k.to_string(), v)).collect())
}

fn strings(items: &[&str]) -> Vec<String> {
    items.iter().map(|s| s.to_string()).collect()
}

fn exec(resume: Option<&str>) -> PromptRunAction {
    PromptRunAction::RunExec { resume: resume.map(str::to_string) }
}

#[test]
fn prompts_prefer_the_app_server_for_jsonl_channels() {
    let start = PromptRunEvent::Start;
    assert_eq!(next_prompt_run_action(CodexTransport::Remote, true, None, false, &start), PromptRunAction::RunRemote);
    assert_eq!(
        next_prompt_run_action(CodexTransport::RemoteStrict, true, None, false, &start),
        PromptRunAction::RunRemote
    );
    assert_eq!(next_prompt_run_action(CodexTransport::Exec, true, Some("t-1"), false, &start), exec(Some("t-1")));
    assert_eq!(next_prompt_run_action(CodexTransport::Remote, false, None, false, &start), exec(None));
    assert_eq!(
        next_prompt_run_action(CodexTransport::Remote, true, None, false, &PromptRunEvent::RemoteFinished),
        PromptRunAction::Done
    );
}

#[test]
fn failed_remote_turn_falls_back_to_exec_only_under_remote() {
    let failed = PromptRunEvent::RemoteFailed("proxy closed".to_string());
    assert_eq!(next_prompt_run_action(CodexTransport::Remote, true, Some("t-1"), false, &failed), exec(Some("t-1")));
    assert_eq!(
        next_prompt_run_action(CodexTransport::RemoteStrict, true, Some("t-1"), false, &failed),
        PromptRunAction::Fail("proxy closed".to_string())
    );
}

#[test]
fn missing_resume_rollout_retries_once_on_a_fresh_thread() {
    let missing = PromptRunEvent::ExecFinished {
        success: false,
        stderr: "thread/resume failed: no rollout found for thread id 019".to_string(),
    };
    assert_eq!(next_prompt_run_action(CodexTransport::Exec, true, Some("t-1"), true, &missing), exec(None));
    assert_eq!(
        next_prompt_run_action(CodexTransport::Exec, true, Some("t-1"), false, &missing),
        PromptRunAction::Fail("codex exec failed".to_string())
    );
    let other = PromptRunEvent::ExecFinished { success: false, stderr: "network".to_string() };
    assert_eq!(
        next_prompt_run_action(CodexTransport::Exec, true, Some("t-1"), true, &other),
        PromptRunAction::Fail("codex exec failed".to_string())
    );
    let ok = PromptRunEvent::ExecFinished { success: true, stderr: String::new() };
    assert_eq!(next_prompt_run_action(CodexTransport::Exec, false, None, false, &ok), PromptRunAction::PrintFinal);
}

#[test]
fn proxies_are_tried_in_order_then_the_errors_are_reported() {
    let commands = strings(&["codex-proxy", "codex app-server"]);
    assert_eq!(next_proxy_attempt(&commands, 0), Some(0));
    assert_eq!(next_proxy_attempt(&commands, 1), Some(1));
    assert_eq!(next_proxy_attempt(&commands, 2), None);
    assert_eq!(
        remote_turn_error(Some("boom"), &commands, &strings(&["closed", "no such file"])),
        "Codex remote app-server is unavailable: daemon start: boom; proxy `codex-proxy`: closed; proxy `codex app-server`: no such file"
    );
    assert_eq!(
        remote_turn_error(None, &Vec::new(), &Vec::new()),
        "Codex remote app-server is unavailable: no Codex remote proxy command configured"
    );
}

#[test]
fn turn_answers_come_from_the_turn_items() {
    let response = obj(vec![(
        "turn",
        obj(vec![(
            "items",
            JsonValue::Array(vec![obj(vec![("type", s("agentMessage")), ("text", s("done now"))])]),
        )]),
    )]);
    assert_eq!(turn_start_answer(&response), Some("done now".to_string()));
    assert_eq!(turn_start_answer(&obj(vec![("turn", obj(vec![]))])), None);

    let completed = obj(vec![
        ("method", s("turn/completed")),
        (
            "params",
            obj(vec![(
                "turn",
                obj(vec![(
                    "items",
                    JsonValue::Array(vec![obj(vec![
                        ("type", s("agentMessage")),
                        ("text", s("I will create it.")),
                        ("phase", s("running")),
                    ])]),
                )]),
            )]),
        ),
    ]);
    let result = CodexRemoteRunResult { thread_id: "t-1".to_string(), final_message: "I will create it.".to_string() };
    assert_eq!(
        finished_turn_result(result.clone(), &completed, true),
        CodexRemoteRunResult { thread_id: "t-1".to_string(), final_message: "已拒绝权限请求。".to_string() }
    );
    assert_eq!(finished_turn_result(result.clone(), &completed, false), result);
}

#[test]
fn rpc_lines_are_trimmed_and_parsed() {
    assert_eq!(parse_rpc_line("  {\"id\":1}\n"), Some(obj(vec![("id", JsonValue::Number(1))])));
    assert_eq!(parse_rpc_line("not json"), None);
}

#[test]
fn removed_sessions_command_is_answered_as_unknown() {
    let config = default_config();
    let err = prepare_backend_input(&config, ":sessions", false).expect_err("removed");
    assert_eq!(input_error_reply(&err), Some("未定义的命令！可以使用:help查看命令"));
    assert_eq!(input_error_reply(":shell expects a command"), None);
}

#[test]
fn review_runs_codex_review_on_uncommitted_changes() {
    let spec = review_command_spec(Some("focus on tests"), Some("gpt-5.5"), "/tmp/o.txt", "/repo");
    assert_eq!(spec.program, "codex");
    assert_eq!(spec.cwd, "/repo");
    assert_eq!(
        spec.args,
        strings(&[
            "exec", "review", "--yolo", "--json", "-o", "/tmp/o.txt", "--uncommitted", "-m", "gpt-5.5", "--",
            "focus on tests"
        ])
    );
    let bare = review_command_spec(Some("  "), None, "/tmp/o.txt", "/repo");
    assert_eq!(bare.args, strings(&["exec", "review", "--yolo", "--json", "-o", "/tmp/o.txt", "--uncommitted"]));
}
