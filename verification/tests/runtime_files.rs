use wecode::diagnostics::report_line;
use wecode::messages::{runtime_status_message, sleep_guard_label};
use wecode::openclaw::CAFFEINATE_PATH;
use wecode::runtime_patch::{
    compact_plan, is_cli_runtime_file, is_commands_handlers_file, is_text_routing_file,
    text_routing_plan,
};
use wecode::sessions::{sort_texts, state_title_rows};
use wecode::{default_config, PreventSleepMode, ToolCheck};

const ROUTING: &str = r#"function shouldHandleTextCommands(params) {
	if (params.commandSource === "native") return true;
	if (params.cfg.commands?.text !== false) return true;
	return !isNativeCommandSurface(params.surface);
}
"#;

fn strings(items: &[&str]) -> Vec<String> {
    items.iter().map(|s| s.to_string()).collect()
}

#[test]
fn dist_files_are_recognised_by_prefix_and_extension() {
    assert!(is_text_routing_file("commands-text-routing-AbC12.js"));
    assert!(!is_text_routing_file("commands-text-routing-AbC12.js.map"));
    assert!(is_commands_handlers_file("commands-handlers.runtime-x.js"));
    assert!(is_cli_runtime_file("execute.runtime-x.js"));
    assert!(!is_cli_runtime_file("runtime-x.js"));
}

#[test]
fn text_routing_plan_rewrites_the_first_recognised_file_by_path() {
    let files = vec![
        ("/dist/commands-text-routing-b.js".to_string(), ROUTING.to_string()),
        ("/dist/commands-text-routing-a.js".to_string(), "console.log(1);".to_string()),
    ];
    let plan = text_routing_plan("/dist", files).expect("plan").expect("a file to write");
    assert_eq!(plan.0, "/dist/commands-text-routing-b.js");
    assert!(plan.1.contains("return params.cfg.commands?.text !== false;"));
    assert_eq!(
        text_routing_plan("/dist", Vec::new()),
        Err("OpenClaw commands text routing file not found in /dist".to_string())
    );
    assert_eq!(
        text_routing_plan("/dist", vec![("/dist/a.js".to_string(), "x".to_string())]),
        Err("unsupported OpenClaw commands text routing format; expected text command fallback was not found"
            .to_string())
    );
    let done = text_routing_plan("/dist", vec![("/dist/a.js".to_string(), plan.1.clone())]);
    assert_eq!(done, Ok(None));
}

#[test]
fn compact_plan_without_handler_files_writes_nothing() {
    assert_eq!(compact_plan(Vec::new()), Ok(None));
    assert_eq!(
        compact_plan(vec![("/dist/h.js".to_string(), "x".to_string())]),
        Err("unsupported OpenClaw commands handler format; expected /compact command handler was not found"
            .to_string())
    );
}

#[test]
fn state_titles_are_read_from_sqlite_json() {
    assert_eq!(
        state_title_rows(r#"[{"id":"t-1","title":"Fix bug"},{"id":"t-2"},{"id":"t-3","title":"Docs"}]"#),
        Some(vec![
            ("t-1".to_string(), "Fix bug".to_string()),
            ("t-3".to_string(), "Docs".to_string())
        ])
    );
    assert_eq!(state_title_rows(""), None);
    assert_eq!(state_title_rows(r#"{"id":"t-1"}"#), None);
}

#[test]
fn texts_sort_ascending() {
    assert_eq!(sort_texts(strings(&["b", "a", "c", "a"])), strings(&["a", "a", "b", "c"]));
}

#[test]
fn doctor_lines_are_padded_columns() {
    let line = report_line(&ToolCheck { name: "node".to_string(), ok: true, message: "v24.1.0".to_string() });
    assert_eq!(line, "node      ok      v24.1.0");
    let line = report_line(&ToolCheck { name: "codex".to_string(), ok: false, message: "missing".to_string() });
    assert_eq!(line, "codex     fail    missing");
}

#[test]
fn runtime_status_is_markdown() {
    let mut config = default_config();
    config.openclaw.profile = "wecode".to_string();
    config.openclaw.prevent_sleep = PreventSleepMode::Ac;
    let args = strings(&[CAFFEINATE_PATH, "-s", "/usr/bin/node"]);
    assert_eq!(sleep_guard_label(Some(&args)), "ac");
    assert_eq!(sleep_guard_label(None), "unknown");
    assert_eq!(
        runtime_status_message(&config, "/L/ai.plist", false, "unknown", "`ai.openclaw.wecode` not loaded"),
        "# Wecode Runtime Status\n\n- **Profile**: `wecode`\n- **LaunchAgent**: `/L/ai.plist` (missing)\n- **Configured preventSleep**: `ac`\n- **Sleep guard**: `unknown`\n- **Gateway process**: `ai.openclaw.wecode` not loaded"
    );
}
