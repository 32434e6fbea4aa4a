//! Verified core of the wecode bridge between chat channels and a local Codex CLI.
pub mod text;
pub mod json;
pub mod config;
pub mod commands;
pub mod cli;
pub mod diagnostics;
pub mod command_step;
pub mod paths;
pub mod openclaw;
pub mod backend;
pub mod sessions;
pub mod native_approval;
pub mod codex_remote;
pub mod run_lock;
pub mod yolo;
pub mod messages;
pub mod bootstrap;
pub mod runtime_patch;
pub mod project;
pub mod channel_patch;

pub use cli::{parse_cli_args, parse_cli_words, BootstrapChannel, CliCommand};
pub use command_step::CommandStep;
pub use commands::{
    prepare_backend_input, prepare_backend_input_with_trace, prepare_backend_prompt,
    render_command_input, BackendInput, PreparedBackendInput, RenderedCommand,
};
pub use config::{
    codex_model_from_openclaw_model, default_config, CodexConfig, CodexRemoteConfig,
    CodexTransport, CustomCommand, OpenclawConfig, PreventSleepMode, WecodeConfig,
    WECODE_CLI_BACKEND_ID,
};
pub use diagnostics::{diagnose_tools, parse_node_version, ToolCheck, ToolReport, ToolSnapshot};
pub use openclaw::{
    bootstrap_plan, bootstrap_plan_with_backend_command, channel_install_steps, codex_config_plan,
    codex_config_plan_with_backend_command, feishu_install_steps, gateway_install_step,
    gateway_launch_agent_path, openclaw_bin_dir, openclaw_bin_path, openclaw_install_step,
    openclaw_runtime_patch_step, prevent_sleep_program_arguments, weixin_install_step,
    weixin_install_steps, WECODE_WEIXIN_PLUGIN_NPM_SPEC,
};
pub use sessions::{list_all_codex_sessions, list_codex_sessions, CodexSessionSummary};
