//! Configuration of the bridge: OpenClaw runtime, Codex invocation and the
//! user's custom chat commands, with the built-in defaults.
use crate::text::{chars_to_string, str_chars, strip_prefix_slice, trim, trim_slice, eq_slices};
use vstd::prelude::*;

verus! {

/// Identifier under which wecode registers itself as an OpenClaw CLI backend.
pub const WECODE_CLI_BACKEND_ID: &'static str = "wecode-codex";

/// The backend model name that means "Codex's own default model".
pub const WECODE_CLI_BACKEND_MODEL: &'static str = "default";

/// Display alias of the backend in OpenClaw's model list.
pub const WECODE_CLI_BACKEND_ALIAS: &'static str = "Wecode Codex";

#[derive(Debug, Clone, PartialEq, Eq)]
pub struct WecodeConfig {
    pub openclaw: OpenclawConfig,
    pub codex: CodexConfig,
    pub commands: Vec<CustomCommand>,
}

#[derive(Debug, Clone, PartialEq, Eq)]
pub struct OpenclawConfig {
    pub model: String,
    pub auto_install_openclaw: bool,
    pub profile: String,
    pub runtime_dir: String,
    pub state_dir: String,
    pub config_path: String,
    pub workspace_dir: String,
    pub gateway_port: u16,
    pub timeout_seconds: u32,
    pub cli_no_output_timeout_ms: u64,
    pub prevent_sleep: PreventSleepMode,
    pub node_bin_dir: Option<String>,
}

/// Whether the OpenClaw gateway keeps the machine awake (`caffeinate`).
#[derive(Debug, Clone, Copy, PartialEq, Eq, Structural)]
pub enum PreventSleepMode {
    Off,
    Ac,
    Always,
}

#[derive(Debug, Clone, PartialEq, Eq)]
pub struct CodexConfig {
    pub sandbox: String,
    pub transport: CodexTransport,
    pub remote: CodexRemoteConfig,
    pub cwd: Option<String>,
    pub model: Option<String>,
    pub models: Vec<String>,
}

/// How a Codex turn is run: `codex exec`, the app-server remote API with an
/// exec fallback, or the remote API only.
#[derive(Debug, Clone, Copy, PartialEq, Eq, Structural)]
pub enum CodexTransport {
    Exec,
    Remote,
    RemoteStrict,
}

#[derive(Debug, Clone, PartialEq, Eq)]
pub struct CodexRemoteConfig {
    pub auto_start: bool,
    pub proxy_command: String,
    pub start_command: String,
    pub fallback_proxy_command: String,
    pub approval_timeout_seconds: u64,
}

/// A chat command: input starting with `prefix` is sent to Codex as
/// `prompt` with `{{message}}` replaced by the rest of the input.
#[derive(Debug, Clone, PartialEq, Eq)]
pub struct CustomCommand {
    pub name: String,
    pub prefix: String,
    pub prompt: String,
    pub require_confirm: bool,
}

pub open spec fn backend_prefix() -> Seq<char> {
    WECODE_CLI_BACKEND_ID@ + "/"@
}

/// The OpenClaw model id of the wecode backend's default model.
pub open spec fn default_openclaw_model_id() -> Seq<char> {
    WECODE_CLI_BACKEND_ID@ + "/"@ + WECODE_CLI_BACKEND_MODEL@
}

pub open spec fn default_openclaw_is_defaults(c: OpenclawConfig) -> bool {
    &&& c.model@ == default_openclaw_model_id()
    &&& !c.auto_install_openclaw
    &&& c.profile@ == "wecode"@
    &&& c.runtime_dir@ == "~/.wecode/openclaw-runtime"@
    &&& c.state_dir@ == "~/.wecode/openclaw-state"@
    &&& c.config_path@ == "~/.wecode/openclaw-state/openclaw.json"@
    &&& c.workspace_dir@ == "~/.wecode/workspace"@
    &&& c.gateway_port == 19789
    &&& c.timeout_seconds == 1200
    &&& c.cli_no_output_timeout_ms == 900_000
    &&& c.prevent_sleep == PreventSleepMode::Ac
    &&& c.node_bin_dir is None
}

pub open spec fn remote_is_defaults(c: CodexRemoteConfig) -> bool {
    &&& c.auto_start
    &&& c.proxy_command@ == "codex app-server proxy"@
    &&& c.start_command@ == "codex remote-control start --json"@
    &&& c.fallback_proxy_command@ == "codex app-server --listen stdio://"@
    &&& c.approval_timeout_seconds == 600
}

pub open spec fn codex_is_defaults(c: CodexConfig) -> bool {
    &&& c.sandbox@ == "workspace-write"@
    &&& c.transport == CodexTransport::Remote
    &&& remote_is_defaults(c.remote)
    &&& c.cwd is None
    &&& c.model is None
    &&& c.models@.len() == 2
    &&& c.models@[0]@ == WECODE_CLI_BACKEND_MODEL@
    &&& c.models@[1]@ == "gpt-5.4"@
}

pub open spec fn command_is(c: CustomCommand, name: Seq<char>, prefix: Seq<char>, prompt: Seq<char>) -> bool {
    c.name@ == name && c.prefix@ == prefix && c.prompt@ == prompt && !c.require_confirm
}

/// The built-in custom commands, in order.
pub open spec fn commands_are_defaults(cs: Seq<CustomCommand>) -> bool {
    &&& cs.len() == 7
    &&& command_is(cs[0], "ask"@, ":codex "@, "{{message}}"@)
    &&& command_is(cs[1], "explain"@, ":explain "@,
        "Explain this code, file, error, or concept clearly: {{message}}"@)
    &&& command_is(cs[2], "fix"@, ":fix "@,
        "Find and implement a focused fix for this problem. Verify the result: {{message}}"@)
    &&& command_is(cs[3], "test"@, ":test "@,
        "Run, add, or repair focused tests for this target: {{message}}"@)
    &&& command_is(cs[4], "debug"@, ":debug "@,
        "Debug this systematically, identify the root cause, and fix it when appropriate: {{message}}"@)
    &&& command_is(cs[5], "refactor"@, ":refactor "@,
        "Refactor this while preserving behavior. Keep the change focused and verify it: {{message}}"@)
    &&& command_is(cs[6], "docs"@, ":docs "@,
        "Write or update clear project documentation for: {{message}}"@)
}

fn owned(s: &str) -> (r: String)
    ensures
        r@ == s@,
{
    s.to_owned()
}

fn custom_command(name: &str, prefix: &str, prompt: &str) -> (c: CustomCommand)
    ensures
        command_is(c, name@, prefix@, prompt@),
{
    CustomCommand {
        name: owned(name),
        prefix: owned(prefix),
        prompt: owned(prompt),
        require_confirm: false,
    }
}

pub fn default_commands() -> (cs: Vec<CustomCommand>)
    ensures
        commands_are_defaults(cs@),
{
    let mut cs: Vec<CustomCommand> = Vec::new();
    cs.push(custom_command("ask", ":codex ", "{{message}}"));
    cs.push(
        custom_command(
            "explain",
            ":explain ",
            "Explain this code, file, error, or concept clearly: {{message}}",
        ),
    );
    cs.push(
        custom_command(
            "fix",
            ":fix ",
            "Find and implement a focused fix for this problem. Verify the result: {{message}}",
        ),
    );
    cs.push(
        custom_command(
            "test",
            ":test ",
            "Run, add, or repair focused tests for this target: {{message}}",
        ),
    );
    cs.push(
        custom_command(
            "debug",
            ":debug ",
            "Debug this systematically, identify the root cause, and fix it when appropriate: {{message}}",
        ),
    );
    cs.push(
        custom_command(
            "refactor",
            ":refactor ",
            "Refactor this while preserving behavior. Keep the change focused and verify it: {{message}}",
        ),
    );
    cs.push(
        custom_command(
            "docs",
            ":docs ",
            "Write or update clear project documentation for: {{message}}",
        ),
    );
    cs
}

pub fn default_openclaw_config() -> (c: OpenclawConfig)
    ensures
        default_openclaw_is_defaults(c),
{
    let mut model = owned(WECODE_CLI_BACKEND_ID);
    model.append("/");
    model.append(WECODE_CLI_BACKEND_MODEL);
    OpenclawConfig {
        model,
        auto_install_openclaw: false,
        profile: owned("wecode"),
        runtime_dir: owned("~/.wecode/openclaw-runtime"),
        state_dir: owned("~/.wecode/openclaw-state"),
        config_path: owned("~/.wecode/openclaw-state/openclaw.json"),
        workspace_dir: owned("~/.wecode/workspace"),
        gateway_port: 19789,
        timeout_seconds: 1200,
        cli_no_output_timeout_ms: 900_000,
        prevent_sleep: PreventSleepMode::Ac,
        node_bin_dir: None,
    }
}

pub fn default_remote_config() -> (c: CodexRemoteConfig)
    ensures
        remote_is_defaults(c),
{
    CodexRemoteConfig {
        auto_start: true,
        proxy_command: owned("codex app-server proxy"),
        start_command: owned("codex remote-control start --json"),
        fallback_proxy_command: owned("codex app-server --listen stdio://"),
        approval_timeout_seconds: 600,
    }
}

pub fn default_codex_config() -> (c: CodexConfig)
    ensures
        codex_is_defaults(c),
{
    let mut models: Vec<String> = Vec::new();
    models.push(owned(WECODE_CLI_BACKEND_MODEL));
    models.push(owned("gpt-5.4"));
    CodexConfig {
        sandbox: owned("workspace-write"),
        transport: CodexTransport::Remote,
        remote: default_remote_config(),
        cwd: None,
        model: None,
        models,
    }
}

/// The configuration used when no config file is given.
pub fn default_config() -> (c: WecodeConfig)
    ensures
        default_openclaw_is_defaults(c.openclaw),
        codex_is_defaults(c.codex),
        commands_are_defaults(c.commands@),
{
    WecodeConfig {
        openclaw: default_openclaw_config(),
        codex: default_codex_config(),
        commands: default_commands(),
    }
}

/// The Codex model named by an OpenClaw model id: surrounding whitespace and
/// a `wecode-codex/` prefix are dropped; empty input and the backend's
/// `default` model mean "no explicit model".
pub open spec fn codex_model_of(model: Seq<char>) -> Option<Seq<char>> {
    let t = trim(model);
    let m = if crate::text::starts_with(t, backend_prefix()) {
        t.skip(backend_prefix().len() as int)
    } else {
        t
    };
    if t.len() == 0 || m == WECODE_CLI_BACKEND_MODEL@ {
        None
    } else {
        Some(m)
    }
}

pub fn codex_model_from_openclaw_model(model: &str) -> (r: Option<String>)
    ensures
        r matches Some(s) ==> codex_model_of(model@) == Some(s@),
        r is None ==> codex_model_of(model@) is None,
{
    let chars = str_chars(model);
    let t = trim_slice(&chars);
    if t.len() == 0 {
        return None;
    }
    let mut prefix = str_chars(WECODE_CLI_BACKEND_ID);
    prefix.push('/');
    assert(prefix@ =~= backend_prefix()) by {
        assert(prefix@ =~= WECODE_CLI_BACKEND_ID@ + seq!['/']);
        reveal_strlit("/");
    }
    let m: &[char] = match strip_prefix_slice(t, prefix.as_slice()) {
        Some(rest) => rest,
        None => t,
    };
    let default_model = str_chars(WECODE_CLI_BACKEND_MODEL);
    if eq_slices(m, default_model.as_slice()) {
        None
    } else {
        Some(chars_to_string(m))
    }
}

} // verus!
