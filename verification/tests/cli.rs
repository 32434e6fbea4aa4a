use wecode::{parse_cli_args, parse_cli_words, BootstrapChannel, CliCommand};

#[test]
fn parses_cli_commands() {
    assert_eq!(
        parse_cli_args(["wecode", "bootstrap", "--dry-run"]),
        Ok(CliCommand::Bootstrap {
            config_path: None,
            dry_run: true,
            channel: BootstrapChannel::Weixin,
        })
    );

    assert_eq!(
        parse_cli_args(["wecode", "bootstrap", "--dry-run", "--weixin"]),
        Ok(CliCommand::Bootstrap {
            config_path: None,
            dry_run: true,
            channel: BootstrapChannel::Weixin,
        })
    );

    assert_eq!(
        parse_cli_args(["wecode", "bootstrap", "--dry-run", "--feishu"]),
        Ok(CliCommand::Bootstrap {
            config_path: None,
            dry_run: true,
            channel: BootstrapChannel::Feishu,
        })
    );

    assert_eq!(
        parse_cli_args(["wecode", "bootstrap", "--weixin", "--feishu"]),
        Err("bootstrap channel flags are mutually exclusive".to_string())
    );

    assert_eq!(
        parse_cli_args(["wecode", "bootstrap", "--install-openclaw"]),
        Err("unexpected bootstrap argument: --install-openclaw".to_string())
    );

    assert_eq!(
        parse_cli_args([
            "wecode",
            "patch-openclaw-runtime",
            "--runtime-dir",
            "~/.wecode/openclaw-runtime"
        ]),
        Ok(CliCommand::PatchOpenclawRuntime {
            runtime_dir: "~/.wecode/openclaw-runtime".to_string()
        })
    );

    assert_eq!(
        parse_cli_args(["wecode", "config", "validate", "wecode.json"]),
        Ok(CliCommand::ConfigValidate {
            path: Some("wecode.json".to_string())
        })
    );

    assert_eq!(
        parse_cli_args(["wecode", "render", ":codex", "hello"]),
        Ok(CliCommand::Render {
            config_path: None,
            input: ":codex hello".to_string(),
        })
    );

    assert_eq!(
        parse_cli_args([
            "wecode",
            "codex-backend",
            "--config",
            "wecode.json",
            "hello"
        ]),
        Ok(CliCommand::CodexBackend {
            config_path: Some("wecode.json".to_string()),
            jsonl: false,
            model: None,
            cwd: None,
            prompt: Some("hello".to_string()),
            resume_session_id: None,
        })
    );

    assert_eq!(
        parse_cli_args(["wecode", "codex-backend"]),
        Ok(CliCommand::CodexBackend {
            config_path: None,
            jsonl: false,
            model: None,
            cwd: None,
            prompt: None,
            resume_session_id: None,
        })
    );

    assert_eq!(
        parse_cli_args([
            "wecode",
            "codex-backend",
            "--jsonl",
            "--resume",
            "019e715e-a44c-70d3-a732-9e9e55e1a1c1"
        ]),
        Ok(CliCommand::CodexBackend {
            config_path: None,
            jsonl: true,
            model: None,
            cwd: None,
            prompt: None,
            resume_session_id: Some("019e715e-a44c-70d3-a732-9e9e55e1a1c1".to_string()),
        })
    );

    assert_eq!(
        parse_cli_args([
            "wecode",
            "codex-backend",
            "--jsonl",
            "--model",
            "wecode-codex/gpt-5.4",
            "hello"
        ]),
        Ok(CliCommand::CodexBackend {
            config_path: None,
            jsonl: true,
            model: Some("wecode-codex/gpt-5.4".to_string()),
            cwd: None,
            prompt: Some("hello".to_string()),
            resume_session_id: None,
        })
    );

    assert_eq!(
        parse_cli_args([
            "wecode",
            "codex-backend",
            "--jsonl",
            "--cwd",
            "/Users/riven/Github/wecode",
            "hello"
        ]),
        Ok(CliCommand::CodexBackend {
            config_path: None,
            jsonl: true,
            model: None,
            cwd: Some("/Users/riven/Github/wecode".to_string()),
            prompt: Some("hello".to_string()),
            resume_session_id: None,
        })
    );
}

#[test]
fn no_arguments_or_help_give_help() {
    assert_eq!(parse_cli_args(["wecode"]), Ok(CliCommand::Help));
    assert_eq!(parse_cli_words(&[]), Ok(CliCommand::Help));
    assert_eq!(parse_cli_args(["wecode", "-h"]), Ok(CliCommand::Help));
    assert_eq!(parse_cli_args(["wecode", "doctor"]), Ok(CliCommand::Doctor));
    assert_eq!(parse_cli_args(["wecode", "install-weixin"]), Ok(CliCommand::InstallWeixin));
    assert_eq!(parse_cli_args(["wecode", "sample-config"]), Ok(CliCommand::SampleConfig));
}

#[test]
fn cli_errors_name_the_missing_or_unexpected_argument() {
    assert_eq!(
        parse_cli_args(["wecode", "frobnicate"]),
        Err("unknown command: frobnicate".to_string())
    );
    assert_eq!(
        parse_cli_args(["wecode", "config"]),
        Err("config requires a subcommand".to_string())
    );
    assert_eq!(
        parse_cli_args(["wecode", "config", "show"]),
        Err("unknown config command: show".to_string())
    );
    assert_eq!(
        parse_cli_args(["wecode", "runtime-status", "--config"]),
        Err("--config requires a path".to_string())
    );
    assert_eq!(
        parse_cli_args(["wecode", "runtime-status", "extra"]),
        Err("unexpected runtime-status argument: extra".to_string())
    );
    assert_eq!(
        parse_cli_args(["wecode", "codex"]),
        Err("codex requires a prompt".to_string())
    );
    assert_eq!(
        parse_cli_args(["wecode", "render", "--config", "a.json"]),
        Err("render requires an input message".to_string())
    );
    assert_eq!(
        parse_cli_args(["wecode", "patch-openclaw-runtime"]),
        Err("patch-openclaw-runtime requires --runtime-dir".to_string())
    );
    assert_eq!(
        parse_cli_args(["wecode", "patch-openclaw-runtime", "--state-dir", "x"]),
        Err("patch-openclaw-runtime requires --runtime-dir".to_string())
    );
    assert_eq!(
        parse_cli_args(["wecode", "patch-openclaw-runtime", "--runtime-dir", "r", "--state-dir"]),
        Err("--state-dir requires a path".to_string())
    );
    assert_eq!(
        parse_cli_args(["wecode", "patch-openclaw-runtime", "--runtime-dir", "r", "--state-dir", "s"]),
        Ok(CliCommand::PatchOpenclawRuntime { runtime_dir: "r".to_string() })
    );
    assert_eq!(
        parse_cli_args(["wecode", "patch-openclaw-runtime", "--bogus"]),
        Err("unexpected patch-openclaw-runtime argument: --bogus".to_string())
    );
    assert_eq!(
        parse_cli_args(["wecode", "codex-backend", "--model"]),
        Err("--model requires an OpenClaw model id".to_string())
    );
    assert_eq!(
        parse_cli_args(["wecode", "codex-backend", "--cwd"]),
        Err("--cwd requires a project directory".to_string())
    );
    assert_eq!(
        parse_cli_args(["wecode", "codex-backend", "--resume"]),
        Err("--resume requires a Codex thread id".to_string())
    );
}

#[test]
fn codex_prompt_and_backend_double_dash_keep_words() {
    assert_eq!(
        parse_cli_args(["wecode", "ask", "--config", "c.json", "fix", "the", "bug"]),
        Ok(CliCommand::Codex {
            config_path: Some("c.json".to_string()),
            prompt: "fix the bug".to_string(),
        })
    );
    assert_eq!(
        parse_cli_args(["wecode", "codex-backend", "a", "--", "--jsonl", "b"]),
        Ok(CliCommand::CodexBackend {
            config_path: None,
            jsonl: false,
            model: None,
            cwd: None,
            prompt: Some("a --jsonl b".to_string()),
            resume_session_id: None,
        })
    );
    assert_eq!(
        parse_cli_args(["wecode", "configure-codex", "--config", "c.json"]),
        Ok(CliCommand::ConfigureCodex {
            config_path: Some("c.json".to_string())
        })
    );
    assert_eq!(
        parse_cli_args(["wecode", "runtime-status"]),
        Ok(CliCommand::RuntimeStatus { config_path: None })
    );
}
