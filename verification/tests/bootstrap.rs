use wecode::bootstrap::{
    is_visible_bootstrap_step, replace_openclaw_case_insensitive,
    runtime_path_prepend, visible_bootstrap_spinner_label,
};
use wecode::runtime_patch::{
    patch_compact_source, patch_text_routing_source, FilePatch, TEXT_ROUTING_ORIGINAL,
};
use wecode::{
    bootstrap_plan, bootstrap_plan_with_backend_command, codex_config_plan, default_config,
    BootstrapChannel, CommandStep,
};

const WORKSPACE: &str = "/home/me/.wecode/workspace";
const PROJECT: &str = "/home/me/project";
const OPENCLAW: &str = "~/.wecode/openclaw-runtime/node_modules/.bin/openclaw";

fn has_openclaw_args(steps: &[CommandStep], args: &[&str]) -> bool {
    steps
        .iter()
        .any(|step| step.program.ends_with("/openclaw") && step.args == args)
}

fn patched_text(patch: FilePatch) -> String {
    match patch {
        FilePatch::Rewritten(text) => text,
        FilePatch::Unchanged => panic!("expected a rewrite, got no change"),
        FilePatch::Unrecognized => panic!("expected a rewrite, got unrecognized"),
    }
}

#[test]
fn bootstrap_plan_connects_weixin_to_wecode_codex_backend() {
    let cfg = default_config();

    let steps = bootstrap_plan_with_backend_command(
        &cfg,
        BootstrapChannel::Weixin,
        "/usr/local/bin/wecode",
        WORKSPACE,
        PROJECT,
    );

    assert_eq!(
        steps[0],
        CommandStep::new(
            "npm",
            ["install", "--prefix", "~/.wecode/openclaw-runtime", "openclaw@latest"]
        )
    );
    assert!(!steps
        .iter()
        .any(|step| step.args.iter().any(|arg| arg == "patch-openclaw-runtime")));
    assert!(has_openclaw_args(&steps, &["config", "set", "gateway.port", "19789"]));
    assert!(has_openclaw_args(
        &steps,
        &["config", "set", "agents.defaults.workspace", WORKSPACE]
    ));
    let cli_backend_json = format!(
        "{{\"wecode-codex\":{{\"args\":[\"codex-backend\",\"--jsonl\",\"--cwd\",\"{PROJECT}\"],\"command\":\"/usr/local/bin/wecode\",\"input\":\"stdin\",\"modelArg\":\"--model\",\"output\":\"jsonl\",\"resumeArgs\":[\"codex-backend\",\"--jsonl\",\"--cwd\",\"{PROJECT}\",\"--resume\",\"{{sessionId}}\"],\"resumeOutput\":\"jsonl\",\"serialize\":true,\"sessionIdFields\":[\"thread_id\"]}}}}"
    );
    assert!(has_openclaw_args(
        &steps,
        &[
            "config",
            "set",
            "agents.defaults.cliBackends",
            cli_backend_json.as_str(),
            "--strict-json",
            "--merge"
        ]
    ));
    assert!(has_openclaw_args(
        &steps,
        &[
            "config",
            "set",
            "agents.defaults.models",
            "{\"wecode-codex/default\":{\"alias\":\"Wecode Codex\"},\"wecode-codex/gpt-5.4\":{\"alias\":\"Wecode Codex gpt-5.4\"}}",
            "--strict-json",
            "--merge"
        ]
    ));
    assert!(has_openclaw_args(
        &steps,
        &[
            "config",
            "set",
            "agents.defaults.model",
            "\"wecode-codex/default\"",
            "--strict-json"
        ]
    ));
    let weixin_install = steps
        .iter()
        .find(|step| step.program == "npx")
        .expect("npx installer step");
    assert_eq!(
        weixin_install.args,
        vec!["-y", "@tencent-weixin/openclaw-weixin-cli@latest", "install"]
    );
    assert_eq!(
        weixin_install.path_prepend,
        vec!["~/.wecode/openclaw-runtime/node_modules/.bin"]
    );
    let expected_env = vec![
        ("OPENCLAW_PROFILE".to_string(), "wecode".to_string()),
        (
            "OPENCLAW_STATE_DIR".to_string(),
            "~/.wecode/openclaw-state".to_string(),
        ),
        (
            "OPENCLAW_CONFIG_PATH".to_string(),
            "~/.wecode/openclaw-state/openclaw.json".to_string(),
        ),
    ];
    assert_eq!(weixin_install.env, expected_env);
    let openclaw_step = steps
        .iter()
        .find(|step| step.program.ends_with("/openclaw"))
        .expect("openclaw step");
    assert_eq!(openclaw_step.env, expected_env);
    assert!(!steps[0].args.iter().any(|arg| arg == "-g"));
    assert!(!steps.iter().any(|step| step.program == "openclaw"));
    let last = steps.last().expect("last step");
    assert_eq!(last.program, OPENCLAW);
    assert_eq!(last.args, vec!["gateway", "install", "--force", "--port", "19789"]);
}

#[test]
fn bootstrap_plan_connects_feishu_to_wecode_codex_backend() {
    let cfg = default_config();

    let steps = bootstrap_plan_with_backend_command(
        &cfg,
        BootstrapChannel::Feishu,
        "/usr/local/bin/wecode",
        WORKSPACE,
        PROJECT,
    );

    assert_eq!(
        steps[0],
        CommandStep::new(
            "npm",
            ["install", "--prefix", "~/.wecode/openclaw-runtime", "openclaw@latest"]
        )
    );
    assert!(has_openclaw_args(
        &steps,
        &["plugins", "install", "@openclaw/feishu", "--force"]
    ));
    assert!(has_openclaw_args(
        &steps,
        &["channels", "login", "--channel", "feishu"]
    ));
    assert!(!steps.iter().any(|step| step.program == "npx"));
    let last = steps.last().expect("last step");
    assert_eq!(last.program, OPENCLAW);
    assert_eq!(last.args, vec!["gateway", "install", "--force", "--port", "19789"]);
}

#[test]
fn bootstrap_plan_prepends_configured_node_bin_dir_to_node_based_steps() {
    let mut cfg = default_config();
    cfg.openclaw.node_bin_dir = Some("~/node24/bin".to_string());

    let steps = bootstrap_plan_with_backend_command(
        &cfg,
        BootstrapChannel::Weixin,
        "/usr/local/bin/wecode",
        WORKSPACE,
        PROJECT,
    );

    assert_eq!(steps[0].program, "npm");
    assert_eq!(steps[0].path_prepend, vec!["~/node24/bin"]);

    let openclaw_steps = steps
        .iter()
        .filter(|step| step.program.ends_with("/openclaw"))
        .collect::<Vec<_>>();
    assert!(!openclaw_steps.is_empty());
    assert!(openclaw_steps
        .iter()
        .all(|step| step.path_prepend == vec!["~/node24/bin"]));

    let weixin_install = steps
        .iter()
        .find(|step| step.program == "npx")
        .expect("npx installer step");
    assert_eq!(
        weixin_install.path_prepend,
        vec!["~/node24/bin", "~/.wecode/openclaw-runtime/node_modules/.bin"]
    );
}

#[test]
fn bootstrap_plan_through_path_uses_plain_wecode_command() {
    let cfg = default_config();

    let steps = bootstrap_plan(&cfg, BootstrapChannel::Weixin, WORKSPACE, PROJECT);

    assert!(steps.iter().any(|step| step
        .args
        .iter()
        .any(|arg| arg.contains("\"command\":\"wecode\""))));
    assert_eq!(steps.len(), 9);
}

#[test]
fn codex_config_plan_registers_backend_and_reinstalls_gateway() {
    let cfg = default_config();

    let steps = codex_config_plan(&cfg, WORKSPACE, PROJECT);

    assert!(has_openclaw_args(&steps, &["config", "set", "gateway.port", "19789"]));
    assert!(!steps.iter().any(|step| step.program == "npm"));
    let last = steps.last().expect("last step");
    assert_eq!(last.args, vec!["gateway", "install", "--force", "--port", "19789"]);
}

#[test]
fn patch_openclaw_text_routing_disables_all_text_commands() {
    let source = r#"function shouldHandleTextCommands(params) {
	if (params.commandSource === "native") return true;
	if (params.cfg.commands?.text !== false) return true;
	return !isNativeCommandSurface(params.surface);
}
"#;

    let patched = patched_text(patch_text_routing_source(source));

    assert!(patched.contains(r#"return params.cfg.commands?.text !== false;"#));
    assert!(!patched.contains(r#"params.commandSource === "native""#));
    assert!(!patched.contains("return !isNativeCommandSurface(params.surface);"));
    assert!(matches!(patch_text_routing_source(&patched), FilePatch::Unchanged));
}

#[test]
fn patch_openclaw_text_routing_upgrades_previous_wecode_patch() {
    let source = r#"function shouldHandleTextCommands(params) {
	if (params.commandSource === "native") return true;
	return params.cfg.commands?.text !== false;
}
"#;

    let patched = patched_text(patch_text_routing_source(source));

    assert!(patched.contains(r#"return params.cfg.commands?.text !== false;"#));
    assert!(!patched.contains(r#"params.commandSource === "native""#));
}

#[test]
fn patch_openclaw_runtime_disables_builtin_compact_when_text_commands_disabled() {
    let source = r#"const handleCompactCommand = async (params) => {
	if (!(params.command.commandBodyNormalized === "/compact" || params.command.commandBodyNormalized.startsWith("/compact "))) return null;
	if (!params.command.isAuthorizedSender) {
		logVerbose(`Ignoring /compact from unauthorized sender: ${params.command.senderId || "<unknown>"}`);
		return { shouldContinue: false };
	}
	return { shouldContinue: false, reply: { text: "compact" } };
};
"#;

    let patched = patched_text(patch_compact_source(source));

    let guard = "if (params.cfg.commands?.text === false) return null;";
    assert!(patched.contains(guard), "compact handler should respect commands.text=false:\n{patched}");
    assert!(matches!(patch_compact_source(&patched), FilePatch::Unchanged));
    assert_eq!(patched.matches(guard).count(), 1);
}

#[test]
fn patch_leaves_unknown_sources_alone() {
    assert!(matches!(
        patch_text_routing_source("console.log('nothing to see');"),
        FilePatch::Unrecognized
    ));
    assert!(matches!(
        patch_text_routing_source(TEXT_ROUTING_ORIGINAL),
        FilePatch::Rewritten(_)
    ));
}

#[test]
fn openclaw_is_rebranded_in_any_case() {
    assert_eq!(
        replace_openclaw_case_insensitive("OpenClaw gateway: openclaw ready (OPENCLAW)"),
        "wecode gateway: wecode ready (wecode)"
    );
    assert_eq!(replace_openclaw_case_insensitive("no brand here"), "no brand here");
}

#[test]
fn weixin_install_is_the_only_visible_bootstrap_step() {
    let cfg = default_config();
    let steps = bootstrap_plan_with_backend_command(
        &cfg,
        BootstrapChannel::Weixin,
        "/usr/local/bin/wecode",
        WORKSPACE,
        PROJECT,
    );

    let visible = steps
        .iter()
        .filter(|step| is_visible_bootstrap_step(step))
        .collect::<Vec<_>>();
    assert_eq!(visible.len(), 1);
    assert_eq!(visible[0].program, "npx");
    assert_eq!(
        visible_bootstrap_spinner_label(visible[0]),
        Some("Wecode 启动中 · 安装微信")
    );
}

#[test]
fn runtime_node_dir_comes_first_on_path_prepend() {
    let prepend = runtime_path_prepend(
        &Some("/opt/node/bin".to_string()),
        &["~/.wecode/openclaw-runtime/node_modules/.bin".to_string()],
        Some("/home/me"),
    );

    assert_eq!(
        prepend,
        vec![
            "/opt/node/bin".to_string(),
            "/home/me/.wecode/openclaw-runtime/node_modules/.bin".to_string()
        ]
    );
}
