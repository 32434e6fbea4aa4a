use wecode::{
    codex_model_from_openclaw_model, default_config, CodexTransport, PreventSleepMode,
};

#[test]
fn default_config_is_personal_codex_weixin_bridge() {
    let cfg = default_config();

    assert_eq!(cfg.openclaw.model, "wecode-codex/default");
    assert_eq!(cfg.openclaw.runtime_dir, "~/.wecode/openclaw-runtime");
    assert_eq!(cfg.openclaw.profile, "wecode");
    assert_eq!(cfg.openclaw.state_dir, "~/.wecode/openclaw-state");
    assert_eq!(
        cfg.openclaw.config_path,
        "~/.wecode/openclaw-state/openclaw.json"
    );
    assert_eq!(cfg.openclaw.workspace_dir, "~/.wecode/workspace");
    assert_eq!(cfg.openclaw.gateway_port, 19789);
    assert_eq!(cfg.openclaw.timeout_seconds, 1200);
    assert_eq!(cfg.openclaw.cli_no_output_timeout_ms, 900_000);
    assert_eq!(cfg.openclaw.prevent_sleep, PreventSleepMode::Ac);
    assert_eq!(cfg.openclaw.node_bin_dir, None);
    assert_eq!(cfg.codex.sandbox, "workspace-write");
    assert_eq!(cfg.codex.transport, CodexTransport::Remote);
    assert!(cfg.codex.remote.auto_start);
    assert_eq!(cfg.codex.remote.proxy_command, "codex app-server proxy");
    assert_eq!(
        cfg.codex.remote.start_command,
        "codex remote-control start --json"
    );
    assert_eq!(
        cfg.codex.remote.fallback_proxy_command,
        "codex app-server --listen stdio://"
    );
    assert_eq!(cfg.codex.remote.approval_timeout_seconds, 600);
    assert_eq!(cfg.codex.models, vec!["default", "gpt-5.4"]);
    assert_eq!(cfg.commands[0].name, "ask");
    assert_eq!(cfg.commands[0].prefix, ":codex ");
}

#[test]
fn defaults_codex_remote_approval_timeout() {
    let cfg = wecode::default_config();

    assert_eq!(cfg.codex.remote.approval_timeout_seconds, 600);
}

#[test]
fn openclaw_model_ids_map_to_codex_models() {
    assert_eq!(codex_model_from_openclaw_model("wecode-codex/gpt-5.5"), Some("gpt-5.5".to_string()));
    assert_eq!(codex_model_from_openclaw_model("  gpt-5.4 "), Some("gpt-5.4".to_string()));
    assert_eq!(codex_model_from_openclaw_model("wecode-codex/default"), None);
    assert_eq!(codex_model_from_openclaw_model("default"), None);
    assert_eq!(codex_model_from_openclaw_model("   "), None);
    assert_eq!(codex_model_from_openclaw_model("other/model"), Some("other/model".to_string()));
}
