use wecode::{
    backend::{backend_target_cwd, AssistantBackend, BackendRunRequest, CodexBackend},
    default_config,
    openclaw::{channel_spec, ChannelKind},
    BootstrapChannel,
};

#[test]
fn channel_specs_expose_channel_specific_bootstrap_metadata() {
    let weixin = channel_spec(BootstrapChannel::Weixin);
    assert_eq!(weixin.kind, ChannelKind::Weixin);
    assert_eq!(weixin.name, "weixin");
    assert_eq!(
        weixin.visible_install_spinner,
        Some("Wecode 启动中 · 安装微信")
    );
    assert!(!weixin.requires_runtime_patch);

    let feishu = channel_spec(BootstrapChannel::Feishu);
    assert_eq!(feishu.kind, ChannelKind::Feishu);
    assert_eq!(feishu.name, "feishu");
    assert_eq!(feishu.visible_install_spinner, None);
    assert!(!feishu.requires_runtime_patch);
}

#[test]
fn codex_backend_exposes_backend_identifier() {
    let cfg = default_config();
    let backend = CodexBackend::default();
    let request = BackendRunRequest {
        config: &cfg,
        prompt: "hello",
        jsonl: true,
        selected_model: None,
        resume_session_id: None,
    };

    assert_eq!(backend.id(), "codex");
    assert_eq!(request.prompt, "hello");
    assert!(request.jsonl);
}

#[test]
fn codex_backend_builds_codex_exec_command_spec() {
    let mut cfg = default_config();
    cfg.codex.cwd = Some(".".to_string());
    let backend = CodexBackend::default();
    let request = BackendRunRequest {
        config: &cfg,
        prompt: "inspect project",
        jsonl: true,
        selected_model: Some("wecode-codex/gpt-5.5"),
        resume_session_id: None,
    };
    let target = backend_target_cwd(&cfg, Some("/home/me"), "/home/me/project");

    let spec = backend
        .run_command_spec(&request, "/tmp/wecode-output.txt", &target)
        .expect("command spec");

    assert_eq!(spec.program, "codex");
    assert_eq!(
        spec.args,
        vec![
            "exec",
            "--json",
            "-o",
            "/tmp/wecode-output.txt",
            "-m",
            "gpt-5.5",
            "-s",
            "workspace-write",
            "-C",
            spec.cwd.as_str(),
            "--",
            "inspect project"
        ]
    );
}

#[test]
fn resumed_turn_names_the_session_instead_of_sandbox_and_cwd() {
    let mut cfg = default_config();
    cfg.codex.model = Some("gpt-5.4".to_string());
    let request = BackendRunRequest {
        config: &cfg,
        prompt: "continue",
        jsonl: false,
        selected_model: Some("wecode-codex/default"),
        resume_session_id: Some("thread-7"),
    };

    let spec = CodexBackend
        .run_command_spec(&request, "/tmp/out.txt", "/work")
        .expect("command spec");

    assert_eq!(
        spec.args,
        vec!["exec", "resume", "--json", "-o", "/tmp/out.txt", "-m", "gpt-5.4", "thread-7", "--", "continue"]
    );
    assert_eq!(spec.cwd, "/work");
}

#[test]
fn target_cwd_expands_home_and_resolves_relative_paths() {
    let mut cfg = default_config();
    cfg.codex.cwd = Some("~/code".to_string());
    assert_eq!(backend_target_cwd(&cfg, Some("/home/me"), "/tmp"), "/home/me/code");

    cfg.codex.cwd = Some("sub".to_string());
    assert_eq!(backend_target_cwd(&cfg, Some("/home/me"), "/tmp"), "/tmp/sub");

    cfg.codex.cwd = None;
    assert_eq!(backend_target_cwd(&cfg, Some("/home/me"), "/srv/app"), "/srv/app");
}
