use wecode::config::CustomCommand;
use wecode::json::JsonValue;
use wecode::messages::{
    approval_request_message, backend_input_kind, codex_resume_rollout_is_missing,
    codex_stdout_jsonl_line_to_openclaw_value, configured_codex_models, custom_command_usage,
    diff_message, format_shell_output, git_status_text, longest_backtick_run,
    markdown_code_block, model_status_message, models_list_message,
    openclaw_assistant_message_jsonl_value, openclaw_thread_jsonl_value, resume_binding_message,
    truncate_for_weixin, weixin_help_message, weixin_status_message,
};
use wecode::yolo::yolo_status_line;
use wecode::{default_config, BackendInput};

fn obj(fields: Vec<(&str, JsonValue)>) -> JsonValue {
    JsonValue::Object(fields.into_iter().map(|(k, v)| (k.to_string(), v)).collect())
}

#[test]
fn local_command_output_uses_longer_markdown_fence_when_needed() {
    assert_eq!(longest_backtick_run("a ``` b ```` c"), 4);
    assert_eq!(markdown_code_block("plain", "text"), "```text\nplain\n```");
    assert_eq!(
        markdown_code_block("has ```` inside", "text"),
        "`````text\nhas ```` inside\n`````"
    );
}

#[test]
fn help_lists_shell_and_codex_commands_and_custom_ones() {
    let mut config = default_config();
    config.commands = vec![CustomCommand {
        name: "deploy".to_string(),
        prefix: ":deploy ".to_string(),
        prompt: "Deploy {{message}}".to_string(),
        require_confirm: true,
    }];

    let help = weixin_help_message(&config);

    assert!(help.starts_with("# Wecode 帮助"));
    assert!(help.contains("`:shell <command>`"));
    assert!(help.contains("`:review [instructions]`"));
    assert!(help.contains("## 自定义命令"));
    assert!(help.ends_with("- `:deploy <text>` - deploy（需要审批）"));
    assert_eq!(custom_command_usage(":ship"), ":ship");
}

#[test]
fn help_lists_local_codex_session_approval_model_and_custom_commands() {
    let help = weixin_help_message(&default_config());
    assert!(!help.starts_with("```"), "{help}");
    for expected in [
        "# Wecode 帮助",
        "`:help` 和 `:commands` 由 Wecode 本地直接返回，不会请求 Codex。",
        "## 普通消息",
        "## 本地命令（不调用 Codex）",
        "- `:help` / `:commands` - 显示本帮助，不请求 Codex",
        "- `:pwd` - 显示当前 Codex 项目目录",
        "- `:ls [path]` - 列出目录，返回绝对路径",
        "- `:cat <path>` - 读取项目内文本文件",
        "- `:cd <path>` - 切换 Codex 项目目录，下一次任务会新开 session",
        "- `:shell <command>` - 在当前 Codex 项目目录执行 shell 命令",
        "- `:diff` - 显示当前项目 git diff",
        "- `:status` - 显示后端、项目、session、审批、模型和 git 状态",
        "- `:stop` - 停止当前正在运行的 Codex 任务",
        "## Codex 命令（会调用 Codex）",
        "- `:init [notes]` - 转成 `/init ...` 后发送给 Codex 原生命令",
        "- `:new [prompt]` - 转成 `/new ...` 后发送给 Codex 原生命令，不保证切换 Wecode 绑定的 session",
        "- `:compact [notes]` - 转成 `/compact ...` 后发送给 Codex 原生命令",
        "- `:plan [task]` - 转成 `/plan ...` 后发送给 Codex 原生命令",
        "- `:goal [objective]` - 转成 `/goal ...` 后发送给 Codex 原生命令",
        "- `:agent [task]` - 转成 `/agent ...` 后发送给 Codex 原生命令",
        "- `:side [question]` - 转成 `/side ...` 后发送给 Codex 原生命令",
        "- `:resume [session_id]` - 绑定到最近或指定的 Codex session，不请求 Codex",
        "- `:report [notes]` - 查询任务进展",
        "## Session 命令",
        "- `:fresh [prompt]` - 硬新开 Codex thread；带 prompt 时立即执行，不带 prompt 时作用于下一条请求",
        "## 审批命令",
        "- `yes` / `:yes [id]` - 批准并执行待确认命令",
        "- `no` / `:no [id]` - 拒绝待确认命令",
        "## 模型命令",
        "- `:model default` - 清除项目模型覆盖",
        "## 自定义命令",
        "- `:codex <text>` - ask",
    ] {
        assert!(help.contains(expected), "missing {expected:?} in:\n{help}");
    }
    assert!(!help.contains(":sessions"), "{help}");
}

#[test]
fn weixin_truncation_marks_the_cut() {
    assert_eq!(truncate_for_weixin("abcdef", 2), "ab\n... truncated ...");
    assert_eq!(truncate_for_weixin("ab", 2), "ab");
}

#[test]
fn shell_output_joins_stdout_and_stderr() {
    assert_eq!(format_shell_output("", "  \n"), "(no output)");
    assert_eq!(format_shell_output("out\n", ""), "out");
    assert_eq!(format_shell_output("out\n", "err\n"), "out\nerr");
}

#[test]
fn diff_message_reports_clean_tree() {
    assert_eq!(diff_message(" ", "\n"), "No unstaged git diff for this project.");
    assert_eq!(
        diff_message(" a | 1 +\n", "+x\n"),
        "Diff stat:\na | 1 +\n\nDiff:\n+x"
    );
    assert_eq!(git_status_text("  \n"), "clean");
    assert_eq!(git_status_text(" M src/lib.rs\n"), "M src/lib.rs");
}

#[test]
fn models_are_listed_once_each() {
    let mut config = default_config();
    config.codex.models = vec![
        "wecode-codex/default".to_string(),
        "wecode-codex/gpt-5.4".to_string(),
        "gpt-5.4".to_string(),
    ];
    config.codex.model = Some("gpt-5.5".to_string());

    let models = configured_codex_models(&config);

    assert_eq!(models, vec!["default", "gpt-5.4", "gpt-5.5"]);
    assert_eq!(
        models_list_message(Some("gpt-5.4"), &models),
        "Configured Codex models:\ncurrent: gpt-5.4\n- default\n- gpt-5.4\n- gpt-5.5\nUse `:model <model>` to set the model for the current project.\nUse `:model default` to clear the project model override."
    );
    assert_eq!(
        model_status_message(None, "/p"),
        "Current Codex model for this project: (Codex default)\nProject: /p\nSet it with `:model <model>`"
    );
}

#[test]
fn status_message_lists_backend_state() {
    let config = default_config();

    let status = weixin_status_message(&config, "/p", Some("t-1"), 2, None, false, "clean");

    assert_eq!(
        status,
        "# Wecode 状态\n\n- **Model**: wecode-codex/default\n- **Backend model**: (Codex default)\n- **Transport**: remote\n- **Sandbox**: workspace-write\n- **CWD**: /p\n- **Current session**: t-1\n- **Pending approvals**: 2\n- **Yolo**: off\n\n## Git\n\n```text\nclean\n```"
    );
}

#[test]
fn status_uses_markdown_and_reports_project_yolo_state() {
    let config = default_config();

    let before = weixin_status_message(&config, "/p", None, 0, None, false, "clean");
    assert!(before.contains("# Wecode 状态"), "{before}");
    assert!(before.contains("**Yolo**: off"), "{before}");
    assert!(before.contains("```text"), "{before}");
    assert_eq!(yolo_status_line(true), "Yolo: on");
    let after = weixin_status_message(&config, "/p", None, 0, None, true, "clean");
    assert!(after.contains("**Yolo**: on"), "{after}");
}

#[test]
fn resume_and_approval_messages() {
    assert_eq!(
        resume_binding_message("abc", "/p", ""),
        "Resumed Codex session `abc`.\nCWD: /p"
    );
    assert_eq!(
        approval_request_message("deploy", "appr-1"),
        "Command `deploy` requires approval.\nApprove: yes, :yes, or :approve appr-1\nDeny: no, :no, or :deny appr-1"
    );
}

#[test]
fn jsonl_lines_for_openclaw() {
    assert_eq!(
        openclaw_thread_jsonl_value("t-9"),
        obj(vec![("thread_id", JsonValue::Str("t-9".to_string()))])
    );
    assert_eq!(
        openclaw_assistant_message_jsonl_value("hi"),
        obj(vec![(
            "item",
            obj(vec![
                ("type", JsonValue::Str("message".to_string())),
                ("text", JsonValue::Str("hi".to_string())),
            ])
        )])
    );
    assert_eq!(
        codex_stdout_jsonl_line_to_openclaw_value(r#"{"thread_id":" t-1 "}"#),
        Some(openclaw_thread_jsonl_value("t-1"))
    );
    assert_eq!(codex_stdout_jsonl_line_to_openclaw_value(r#"{"type":"turn.started"}"#), None);
    assert_eq!(codex_stdout_jsonl_line_to_openclaw_value("not json"), None);
    assert!(codex_stdout_jsonl_line_to_openclaw_value(
        r#"{"item":{"type":"agent_message","text":"done"}}"#
    )
    .is_some());
}

#[test]
fn missing_rollout_is_detected_from_stderr() {
    assert!(codex_resume_rollout_is_missing(
        "error: thread/resume failed: no rollout found for thread id 019e"
    ));
    assert!(!codex_resume_rollout_is_missing("error: network"));
}

#[test]
fn inputs_are_logged_by_kind() {
    assert_eq!(backend_input_kind(&BackendInput::Help), "help");
    assert_eq!(backend_input_kind(&BackendInput::Prompt("x".to_string())), "prompt");
    assert_eq!(backend_input_kind(&BackendInput::AwaitingApproval), "awaiting_approval");
}
