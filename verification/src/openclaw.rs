//! The OpenClaw side of bootstrap: the command steps that install OpenClaw,
//! point it at the wecode Codex backend and connect a chat channel, and the
//! LaunchAgent arguments that keep the gateway awake.
use crate::cli::BootstrapChannel;
use crate::command_step::{pairs_view, CommandStep, StepView};
use crate::config::{
    backend_prefix, default_openclaw_model_id, PreventSleepMode, WecodeConfig,
    WECODE_CLI_BACKEND_ALIAS, WECODE_CLI_BACKEND_ID, WECODE_CLI_BACKEND_MODEL,
};
use crate::diagnostics::{decimal_digits, decimal_string};
use crate::json::{
    field_views, json_string_text, json_text, jv_array, jv_object, jv_str, jv_str_array,
    render_json, views, Json, JsonValue,
};
use crate::paths::{
    expand_tilde, expand_tilde_chars, join_path, join_path_chars, trim_trailing_slashes,
    trim_trailing_slashes_chars,
};
use crate::text::{
    chars_to_string, concat2, concat3, eq_slices, starts_with, str_chars, strings_view,
    strip_prefix_slice, trim, trim_slice, with_lit, words_view,
};
use vstd::prelude::*;

verus! {

/// The wrapper that keeps a Mac awake while the gateway runs.
pub const CAFFEINATE_PATH: &'static str = "/usr/bin/caffeinate";

/// The npm package of the Weixin OpenClaw plugin that wecode pins.
pub const WECODE_WEIXIN_PLUGIN_NPM_SPEC: &'static str = "@tencent-weixin/openclaw-weixin@2.4.4";

#[derive(Debug, Clone, Copy, PartialEq, Eq, Structural)]
pub enum ChannelKind {
    Weixin,
    Feishu,
}

/// What bootstrap needs to know of a chat channel.
#[derive(Debug, Clone, PartialEq, Eq)]
pub struct ChannelSpec {
    pub kind: ChannelKind,
    pub name: &'static str,
    pub requires_runtime_patch: bool,
    pub visible_install_spinner: Option<&'static str>,
}

pub fn channel_spec(channel: BootstrapChannel) -> (s: ChannelSpec)
    ensures
        channel == BootstrapChannel::Weixin ==> {
            &&& s.kind == ChannelKind::Weixin
            &&& s.name@ == "weixin"@
            &&& !s.requires_runtime_patch
            &&& s.visible_install_spinner matches Some(t) && t@ == "Wecode 启动中 · 安装微信"@
        },
        channel == BootstrapChannel::Feishu ==> {
            &&& s.kind == ChannelKind::Feishu
            &&& s.name@ == "feishu"@
            &&& !s.requires_runtime_patch
            &&& s.visible_install_spinner is None
        },
{
    match channel {
        BootstrapChannel::Weixin => ChannelSpec {
            kind: ChannelKind::Weixin,
            name: "weixin",
            requires_runtime_patch: false,
            visible_install_spinner: Some("Wecode 启动中 · 安装微信"),
        },
        BootstrapChannel::Feishu => ChannelSpec {
            kind: ChannelKind::Feishu,
            name: "feishu",
            requires_runtime_patch: false,
            visible_install_spinner: None,
        },
    }
}

// ---------------------------------------------------------------------------
// Steps
// ---------------------------------------------------------------------------

pub open spec fn same_step(a: StepView, b: StepView) -> bool {
    &&& a.program == b.program
    &&& a.args == b.args
    &&& a.path_prepend == b.path_prepend
    &&& a.env == b.env
}

/// `steps` are, one for one, the expected steps.
pub open spec fn steps_are(steps: Seq<CommandStep>, expected: Seq<StepView>) -> bool {
    &&& steps.len() == expected.len()
    &&& forall|i: int| 0 <= i < steps.len() ==> same_step(#[trigger] steps[i]@, expected[i])
}

/// The configured Node directory, put before `PATH` for Node-based steps.
pub open spec fn node_path(c: WecodeConfig) -> Seq<Seq<char>> {
    match c.openclaw.node_bin_dir {
        Some(d) => seq![d@],
        None => Seq::empty(),
    }
}

/// The environment that selects wecode's private OpenClaw profile.
pub open spec fn openclaw_env_view(c: WecodeConfig) -> Seq<(Seq<char>, Seq<char>)> {
    seq![
        ("OPENCLAW_PROFILE"@, c.openclaw.profile@),
        ("OPENCLAW_STATE_DIR"@, c.openclaw.state_dir@),
        ("OPENCLAW_CONFIG_PATH"@, c.openclaw.config_path@),
    ]
}

/// A step run with wecode's OpenClaw environment.
pub open spec fn oc_step(c: WecodeConfig, program: Seq<char>, args: Seq<Seq<char>>) -> StepView {
    StepView { program, args, path_prepend: node_path(c), env: openclaw_env_view(c) }
}

pub open spec fn bin_path(c: WecodeConfig) -> Seq<char> {
    trim_trailing_slashes(c.openclaw.runtime_dir@) + "/node_modules/.bin/openclaw"@
}

pub open spec fn bin_dir(c: WecodeConfig) -> Seq<char> {
    trim_trailing_slashes(c.openclaw.runtime_dir@) + "/node_modules/.bin"@
}

pub open spec fn oc(c: WecodeConfig, args: Seq<Seq<char>>) -> StepView {
    oc_step(c, bin_path(c), args)
}

pub open spec fn install_view(c: WecodeConfig) -> StepView {
    StepView {
        program: "npm"@,
        args: seq!["install"@, "--prefix"@, c.openclaw.runtime_dir@, "openclaw@latest"@],
        path_prepend: node_path(c),
        env: Seq::empty(),
    }
}

pub open spec fn gateway_view(c: WecodeConfig) -> StepView {
    oc(
        c,
        seq![
            "gateway"@,
            "install"@,
            "--force"@,
            "--port"@,
            decimal_digits(c.openclaw.gateway_port as nat),
        ],
    )
}

pub open spec fn patch_view(c: WecodeConfig, backend_command: Seq<char>) -> StepView {
    StepView {
        program: backend_command,
        args: seq!["patch-openclaw-runtime"@, "--runtime-dir"@, c.openclaw.runtime_dir@],
        path_prepend: Seq::empty(),
        env: Seq::empty(),
    }
}

fn owned(s: &str) -> (r: String)
    ensures
        r@ == s@,
{
    s.to_owned()
}

fn string_of(v: Vec<char>) -> (s: String)
    ensures
        s@ == v@,
{
    chars_to_string(v.as_slice())
}

fn openclaw_env(config: &WecodeConfig) -> (env: Vec<(String, String)>)
    ensures
        pairs_view(env@) == openclaw_env_view(*config),
{
    let mut env: Vec<(String, String)> = Vec::new();
    env.push((owned("OPENCLAW_PROFILE"), config.openclaw.profile.clone()));
    env.push((owned("OPENCLAW_STATE_DIR"), config.openclaw.state_dir.clone()));
    env.push((owned("OPENCLAW_CONFIG_PATH"), config.openclaw.config_path.clone()));
    assert(pairs_view(env@) =~= openclaw_env_view(*config));
    env
}

fn with_node_path(step: CommandStep, config: &WecodeConfig) -> (s: CommandStep)
    ensures
        s@.program == step@.program,
        s@.args == step@.args,
        s@.env == step@.env,
        s@.path_prepend == step@.path_prepend + node_path(*config),
{
    match &config.openclaw.node_bin_dir {
        Some(d) => step.with_path_prepend(d.clone()),
        None => {
            assert(step@.path_prepend + node_path(*config) =~= step@.path_prepend);
            step
        },
    }
}

fn openclaw_step(config: &WecodeConfig, program: String, args: Vec<String>) -> (s: CommandStep)
    ensures
        same_step(s@, oc_step(*config, program@, strings_view(args@))),
{
    let step = CommandStep::from_vec(program, args).with_envs(openclaw_env(config));
    let s = with_node_path(step, config);
    assert(s@.env =~= openclaw_env_view(*config));
    assert(s@.path_prepend =~= node_path(*config));
    s
}

fn runtime_root(config: &WecodeConfig) -> (r: Vec<char>)
    ensures
        r@ == trim_trailing_slashes(config.openclaw.runtime_dir@),
{
    let d = str_chars(config.openclaw.runtime_dir.as_str());
    concat2(trim_trailing_slashes_chars(d.as_slice()), &[])
}

/// The `openclaw` executable of wecode's private runtime.
pub fn openclaw_bin_path(config: &WecodeConfig) -> (r: String)
    ensures
        r@ == bin_path(*config),
{
    string_of(with_lit(runtime_root(config).as_slice(), "/node_modules/.bin/openclaw"))
}

/// The directory of the private runtime's Node executables.
pub fn openclaw_bin_dir(config: &WecodeConfig) -> (r: String)
    ensures
        r@ == bin_dir(*config),
{
    string_of(with_lit(runtime_root(config).as_slice(), "/node_modules/.bin"))
}

fn oc_run(config: &WecodeConfig, args: Vec<String>) -> (s: CommandStep)
    ensures
        same_step(s@, oc(*config, strings_view(args@))),
{
    openclaw_step(config, openclaw_bin_path(config), args)
}

fn number_text(n: u64) -> (s: String)
    ensures
        s@ == decimal_digits(n as nat),
{
    string_of(decimal_string(n))
}

/// `npm install --prefix <runtime> openclaw@latest`, with the configured
/// Node directory first in `PATH`.
pub fn openclaw_install_step(config: &WecodeConfig) -> (s: CommandStep)
    ensures
        same_step(s@, install_view(*config)),
{
    let mut args: Vec<String> = Vec::new();
    args.push(owned("install"));
    args.push(owned("--prefix"));
    args.push(config.openclaw.runtime_dir.clone());
    args.push(owned("openclaw@latest"));
    let step = with_node_path(CommandStep::from_vec(owned("npm"), args), config);
    assert(step@.args =~= install_view(*config).args);
    assert(step@.path_prepend =~= node_path(*config));
    assert(step@.env =~= Seq::<(Seq<char>, Seq<char>)>::empty());
    step
}

/// The step that runs `<backend_command> patch-openclaw-runtime`.
pub fn openclaw_runtime_patch_step(config: &WecodeConfig, backend_command: &str) -> (s:
    CommandStep)
    ensures
        same_step(s@, patch_view(*config, backend_command@)),
{
    let mut args: Vec<String> = Vec::new();
    args.push(owned("patch-openclaw-runtime"));
    args.push(owned("--runtime-dir"));
    args.push(config.openclaw.runtime_dir.clone());
    let step = CommandStep::from_vec(owned(backend_command), args);
    assert(step@.args =~= patch_view(*config, backend_command@).args);
    assert(step@.env =~= Seq::<(Seq<char>, Seq<char>)>::empty());
    assert(step@.path_prepend =~= Seq::<Seq<char>>::empty());
    step
}

/// `openclaw gateway install --force --port <port>`.
pub fn gateway_install_step(config: &WecodeConfig) -> (s: CommandStep)
    ensures
        same_step(s@, gateway_view(*config)),
{
    let mut args: Vec<String> = Vec::new();
    args.push(owned("gateway"));
    args.push(owned("install"));
    args.push(owned("--force"));
    args.push(owned("--port"));
    args.push(number_text(config.openclaw.gateway_port as u64));
    let s = oc_run(config, args);
    assert(s@.args =~= gateway_view(*config).args);
    s
}

// ---------------------------------------------------------------------------
// Keeping the gateway awake
// ---------------------------------------------------------------------------

/// The LaunchAgent arguments without a wrapper that wecode added earlier.
pub open spec fn strip_caffeinate(args: Seq<Seq<char>>) -> Seq<Seq<char>> {
    if args.len() >= 2 && args[0] == CAFFEINATE_PATH@ && (args[1] == "-s"@ || args[1] == "-i"@) {
        args.skip(2)
    } else {
        args
    }
}

/// The LaunchAgent arguments for a sleep mode: unwrapped when off, else run
/// under `caffeinate -s` (on AC power) or `caffeinate -i` (always).
pub open spec fn prevent_sleep_args(args: Seq<Seq<char>>, mode: PreventSleepMode) -> Seq<
    Seq<char>,
> {
    match mode {
        PreventSleepMode::Off => strip_caffeinate(args),
        PreventSleepMode::Ac => seq![CAFFEINATE_PATH@, "-s"@] + strip_caffeinate(args),
        PreventSleepMode::Always => seq![CAFFEINATE_PATH@, "-i"@] + strip_caffeinate(args),
    }
}

fn strip_wecode_caffeinate_wrapper(args: &[String]) -> (r: Vec<String>)
    ensures
        strings_view(r@) == strip_caffeinate(strings_view(args@)),
{
    let ghost a = strings_view(args@);
    let mut from: usize = 0;
    if args.len() >= 2 {
        let first = str_chars(args[0].as_str());
        let second = str_chars(args[1].as_str());
        let caff = str_chars(CAFFEINATE_PATH);
        let s = str_chars("-s");
        let i = str_chars("-i");
        if eq_slices(first.as_slice(), caff.as_slice()) && (eq_slices(second.as_slice(), s.as_slice())
            || eq_slices(second.as_slice(), i.as_slice())) {
            from = 2;
        }
    }
    let mut out: Vec<String> = Vec::new();
    let mut k: usize = from;
    while k < args.len()
        invariant
            from <= k <= args.len(),
            a == strings_view(args@),
            strings_view(out@) == a.subrange(from as int, k as int),
        decreases args.len() - k,
    {
        let ghost before = strings_view(out@);
        out.push(args[k].clone());
        proof {
            assert(strings_view(out@) =~= before.push(a[k as int]));
            assert(a.subrange(from as int, k + 1) =~= a.subrange(from as int, k as int).push(
                a[k as int],
            ));
        }
        k += 1;
    }
    proof {
        assert(a.subrange(from as int, args.len() as int) =~= a.skip(from as int));
        assert(a.skip(0) =~= a);
    }
    out
}

/// The LaunchAgent `ProgramArguments` for the sleep mode (see
/// `prevent_sleep_args`).
pub fn prevent_sleep_program_arguments(args: &[String], mode: PreventSleepMode) -> (r: Vec<
    String,
>)
    ensures
        strings_view(r@) == prevent_sleep_args(strings_view(args@), mode),
{
    let stripped = strip_wecode_caffeinate_wrapper(args);
    let flag = match mode {
        PreventSleepMode::Off => {
            return stripped;
        },
        PreventSleepMode::Ac => "-s",
        PreventSleepMode::Always => "-i",
    };
    let mut wrapped: Vec<String> = Vec::new();
    wrapped.push(owned(CAFFEINATE_PATH));
    wrapped.push(owned(flag));
    let ghost head = strings_view(wrapped@);
    let mut k: usize = 0;
    while k < stripped.len()
        invariant
            k <= stripped.len(),
            strings_view(wrapped@) == head + strings_view(stripped@).take(k as int),
        decreases stripped.len() - k,
    {
        let ghost before = strings_view(wrapped@);
        wrapped.push(stripped[k].clone());
        proof {
            assert(strings_view(wrapped@) =~= before.push(strings_view(stripped@)[k as int]));
            assert(strings_view(stripped@).take(k + 1) =~= strings_view(stripped@).take(
                k as int,
            ).push(strings_view(stripped@)[k as int]));
        }
        k += 1;
    }
    proof {
        assert(strings_view(stripped@).take(stripped.len() as int) =~= strings_view(stripped@));
        assert(head =~= seq![CAFFEINATE_PATH@, flag@]);
    }
    wrapped
}

/// The new LaunchAgent arguments, or `None` when they already match the
/// sleep mode and the plist needs no write.
pub fn launch_agent_update(args: &[String], mode: PreventSleepMode) -> (r: Option<Vec<String>>)
    ensures
        r is None <==> prevent_sleep_args(strings_view(args@), mode) == strings_view(args@),
        r matches Some(v) ==> strings_view(v@) == prevent_sleep_args(strings_view(args@), mode),
{
    let patched = prevent_sleep_program_arguments(args, mode);
    let mut same = patched.len() == args.len();
    let mut k: usize = 0;
    while same && k < args.len()
        invariant
            k <= args.len(),
            same ==> patched.len() == args.len(),
            same ==> forall|j: int| 0 <= j < k ==> (#[trigger] strings_view(patched@)[j]) == strings_view(args@)[j],
            !same ==> strings_view(patched@) != strings_view(args@),
        decreases args.len() - k,
    {
        let a = str_chars(patched[k].as_str());
        let b = str_chars(args[k].as_str());
        if !eq_slices(a.as_slice(), b.as_slice()) {
            assert(strings_view(patched@)[k as int] != strings_view(args@)[k as int]);
            same = false;
        }
        k += 1;
    }
    if same {
        assert(strings_view(patched@) =~= strings_view(args@));
        None
    } else {
        Some(patched)
    }
}

/// What is done when the LaunchAgent plist is missing: nothing when sleep
/// prevention is off, an error otherwise.
pub fn missing_launch_agent_result(path: &str, mode: PreventSleepMode) -> (r: Result<(), String>)
    ensures
        r is Ok <==> mode == PreventSleepMode::Off,
        r matches Err(e) ==> e@ == "OpenClaw LaunchAgent plist not found at "@ + path@
            + "; cannot apply openclaw.preventSleep"@,
{
    if mode == PreventSleepMode::Off {
        Ok(())
    } else {
        let p = str_chars(path);
        let v = with_lit(
            crate::text::lit_then("OpenClaw LaunchAgent plist not found at ", p.as_slice()).as_slice(),
            "; cannot apply openclaw.preventSleep",
        );
        Err(string_of(v))
    }
}

pub open spec fn launch_agent_path(c: WecodeConfig, home: Option<Seq<char>>) -> Seq<char> {
    join_path(
        expand_tilde("~/Library/LaunchAgents"@, home),
        "ai.openclaw."@ + c.openclaw.profile@ + ".plist"@,
    )
}

/// The gateway's LaunchAgent plist (`~/Library/LaunchAgents/ai.openclaw.<profile>.plist`).
pub fn gateway_launch_agent_path(config: &WecodeConfig, home: Option<&str>) -> (r: String)
    ensures
        r@ == launch_agent_path(*config, match home {
            Some(h) => Some(h@),
            None => None,
        }),
{
    let dir = str_chars("~/Library/LaunchAgents");
    let base = expand_tilde_chars(dir.as_slice(), home);
    let profile = str_chars(config.openclaw.profile.as_str());
    let name = with_lit(crate::text::lit_then("ai.openclaw.", profile.as_slice()).as_slice(), ".plist");
    string_of(join_path_chars(base.as_slice(), name.as_slice()))
}

// ---------------------------------------------------------------------------
// Connecting OpenClaw to the wecode Codex backend
// ---------------------------------------------------------------------------

pub open spec fn sj(s: Seq<char>) -> Json {
    Json::Str(s)
}

/// The `agents.defaults.cliBackends` entry that runs `<command> codex-backend`
/// in the project directory.
pub open spec fn cli_backend_json(command: Seq<char>, project_cwd: Seq<char>) -> Json {
    Json::Object(
        seq![
            (
                WECODE_CLI_BACKEND_ID@,
                Json::Object(
                    seq![
                        (
                            "args"@,
                            Json::Array(
                                seq![
                                    sj("codex-backend"@),
                                    sj("--jsonl"@),
                                    sj("--cwd"@),
                                    sj(project_cwd),
                                ],
                            ),
                        ),
                        ("command"@, sj(command)),
                        ("input"@, sj("stdin"@)),
                        ("modelArg"@, sj("--model"@)),
                        ("output"@, sj("jsonl"@)),
                        (
                            "resumeArgs"@,
                            Json::Array(
                                seq![
                                    sj("codex-backend"@),
                                    sj("--jsonl"@),
                                    sj("--cwd"@),
                                    sj(project_cwd),
                                    sj("--resume"@),
                                    sj("{sessionId}"@),
                                ],
                            ),
                        ),
                        ("resumeOutput"@, sj("jsonl"@)),
                        ("serialize"@, Json::Bool(true)),
                        ("sessionIdFields"@, Json::Array(seq![sj("thread_id"@)])),
                    ],
                ),
            ),
        ],
    )
}

/// An OpenClaw model id for a configured Codex model: ids with a provider
/// (`a/b`) stay as they are, others belong to the wecode backend.
pub open spec fn openclaw_model_id(model: Seq<char>) -> Seq<char> {
    if trim(model).contains('/') {
        trim(model)
    } else {
        WECODE_CLI_BACKEND_ID@ + "/"@ + trim(model)
    }
}

/// The display alias of a model in OpenClaw's model list.
pub open spec fn openclaw_model_alias(id: Seq<char>) -> Seq<char> {
    if id == default_openclaw_model_id() {
        WECODE_CLI_BACKEND_ALIAS@
    } else if starts_with(id, backend_prefix()) {
        WECODE_CLI_BACKEND_ALIAS@ + " "@ + id.skip(backend_prefix().len() as int)
    } else {
        WECODE_CLI_BACKEND_ALIAS@ + " "@ + id
    }
}

/// Adds a model id (trimmed) to the list unless it is empty or already there.
pub open spec fn allow_insert(keys: Seq<Seq<char>>, id: Seq<char>) -> Seq<Seq<char>> {
    if trim(id).len() == 0 || keys.contains(trim(id)) {
        keys
    } else {
        keys.push(trim(id))
    }
}

pub open spec fn allow_keys(ids: Seq<Seq<char>>) -> Seq<Seq<char>>
    decreases ids.len(),
{
    if ids.len() == 0 {
        Seq::empty()
    } else {
        allow_insert(allow_keys(ids.drop_last()), ids.last())
    }
}

/// The models offered in OpenClaw: the configured OpenClaw model, then the
/// configured Codex models and the Codex model override.
pub open spec fn allowlist_ids(c: WecodeConfig) -> Seq<Seq<char>> {
    seq![c.openclaw.model@] + strings_view(c.codex.models@).map_values(
        |m: Seq<char>| openclaw_model_id(m),
    ) + match c.codex.model {
        Some(m) => seq![openclaw_model_id(m@)],
        None => Seq::empty(),
    }
}

pub open spec fn allowlist_entry(id: Seq<char>) -> (Seq<char>, Json) {
    (id, Json::Object(seq![("alias"@, sj(openclaw_model_alias(id)))]))
}

pub open spec fn allowlist_json(c: WecodeConfig) -> Json {
    Json::Object(allow_keys(allowlist_ids(c)).map_values(|id: Seq<char>| allowlist_entry(id)))
}

/// The six `openclaw config set` steps that register the backend, its
/// models and the gateway settings.
pub open spec fn bridge_views(
    c: WecodeConfig,
    backend_command: Seq<char>,
    workspace_dir: Seq<char>,
    project_cwd: Seq<char>,
) -> Seq<StepView> {
    seq![
        oc(c, seq!["config"@, "set"@, "gateway.port"@, decimal_digits(c.openclaw.gateway_port as nat)]),
        oc(c, seq!["config"@, "set"@, "agents.defaults.workspace"@, workspace_dir]),
        oc(
            c,
            seq![
                "config"@,
                "set"@,
                "agents.defaults.timeoutSeconds"@,
                decimal_digits(c.openclaw.timeout_seconds as nat),
            ],
        ),
        oc(
            c,
            seq![
                "config"@,
                "set"@,
                "agents.defaults.cliBackends"@,
                json_text(cli_backend_json(backend_command, project_cwd)),
                "--strict-json"@,
                "--merge"@,
            ],
        ),
        oc(
            c,
            seq![
                "config"@,
                "set"@,
                "agents.defaults.models"@,
                json_text(allowlist_json(c)),
                "--strict-json"@,
                "--merge"@,
            ],
        ),
        oc(
            c,
            seq![
                "config"@,
                "set"@,
                "agents.defaults.model"@,
                json_text(sj(c.openclaw.model@)),
                "--strict-json"@,
            ],
        ),
    ]
}

fn string_array(items: Vec<String>) -> (v: JsonValue)
    ensures
        v@ == Json::Array(strings_view(items@).map_values(|s: Seq<char>| sj(s))),
{
    let v = jv_str_array(items);
    assert(Seq::new(items@.len(), |i: int| Json::Str(items@[i]@)) =~= strings_view(
        items@,
    ).map_values(|s: Seq<char>| sj(s)));
    v
}

fn cli_backend_config_json(backend_command: &str, project_cwd: &str) -> (r: String)
    ensures
        r@ == json_text(cli_backend_json(backend_command@, project_cwd@)),
{
    let mut args: Vec<String> = Vec::new();
    args.push(owned("codex-backend"));
    args.push(owned("--jsonl"));
    args.push(owned("--cwd"));
    args.push(owned(project_cwd));
    let ghost args_v = strings_view(args@);
    let args_json = string_array(args);
    let mut resume: Vec<String> = Vec::new();
    resume.push(owned("codex-backend"));
    resume.push(owned("--jsonl"));
    resume.push(owned("--cwd"));
    resume.push(owned(project_cwd));
    resume.push(owned("--resume"));
    resume.push(owned("{sessionId}"));
    let ghost resume_v = strings_view(resume@);
    let resume_json = string_array(resume);
    let mut id_fields: Vec<String> = Vec::new();
    id_fields.push(owned("thread_id"));
    let ghost id_v = strings_view(id_fields@);
    let id_json = string_array(id_fields);
    let mut fields: Vec<(String, JsonValue)> = Vec::new();
    fields.push((owned("args"), args_json));
    fields.push((owned("command"), jv_str(owned(backend_command))));
    fields.push((owned("input"), jv_str(owned("stdin"))));
    fields.push((owned("modelArg"), jv_str(owned("--model"))));
    fields.push((owned("output"), jv_str(owned("jsonl"))));
    fields.push((owned("resumeArgs"), resume_json));
    fields.push((owned("resumeOutput"), jv_str(owned("jsonl"))));
    fields.push((owned("serialize"), JsonValue::Bool(true)));
    fields.push((owned("sessionIdFields"), id_json));
    let inner = jv_object(fields);
    let mut outer: Vec<(String, JsonValue)> = Vec::new();
    outer.push((owned(WECODE_CLI_BACKEND_ID), inner));
    let v = jv_object(outer);
    proof {
        assert(args_v.map_values(|s: Seq<char>| sj(s)) =~= seq![
            sj("codex-backend"@),
            sj("--jsonl"@),
            sj("--cwd"@),
            sj(project_cwd@),
        ]);
        assert(resume_v.map_values(|s: Seq<char>| sj(s)) =~= seq![
            sj("codex-backend"@),
            sj("--jsonl"@),
            sj("--cwd"@),
            sj(project_cwd@),
            sj("--resume"@),
            sj("{sessionId}"@),
        ]);
        assert(id_v.map_values(|s: Seq<char>| sj(s)) =~= seq![sj("thread_id"@)]);
        let expected = cli_backend_json(backend_command@, project_cwd@);
        let expected_inner = match expected {
            Json::Object(ms) => ms[0].1,
            _ => Json::Null,
        };
        assert(field_views(fields@) =~= match expected_inner {
            Json::Object(ms) => ms,
            _ => Seq::empty(),
        });
        assert(field_views(outer@) =~= match expected {
            Json::Object(ms) => ms,
            _ => Seq::empty(),
        });
    }
    render_json(&v)
}

fn contains_char(s: &[char], c: char) -> (r: bool)
    ensures
        r == s@.contains(c),
{
    let mut i: usize = 0;
    while i < s.len()
        invariant
            i <= s.len(),
            forall|k: int| 0 <= k < i ==> s@[k] != c,
        decreases s.len() - i,
    {
        if s[i] == c {
            assert(s@[i as int] == c);
            return true;
        }
        i += 1;
    }
    false
}

fn model_id_chars(model: &[char]) -> (r: Vec<char>)
    ensures
        r@ == openclaw_model_id(model@),
{
    let t = trim_slice(model);
    if contains_char(t, '/') {
        concat2(t, &[])
    } else {
        let id = str_chars(WECODE_CLI_BACKEND_ID);
        concat3(with_lit(id.as_slice(), "/").as_slice(), t, &[])
    }
}

fn model_alias_chars(id: &[char]) -> (r: Vec<char>)
    ensures
        r@ == openclaw_model_alias(id@),
{
    let backend = str_chars(WECODE_CLI_BACKEND_ID);
    let prefix = with_lit(backend.as_slice(), "/");
    let default_id = with_lit(prefix.as_slice(), WECODE_CLI_BACKEND_MODEL);
    let alias = str_chars(WECODE_CLI_BACKEND_ALIAS);
    if eq_slices(id, default_id.as_slice()) {
        alias
    } else {
        match strip_prefix_slice(id, prefix.as_slice()) {
            Some(rest) => concat2(with_lit(alias.as_slice(), " ").as_slice(), rest),
            None => concat2(with_lit(alias.as_slice(), " ").as_slice(), id),
        }
    }
}

fn contains_word(keys: &[Vec<char>], w: &[char]) -> (r: bool)
    ensures
        r == words_view(keys@).contains(w@),
{
    let mut i: usize = 0;
    while i < keys.len()
        invariant
            i <= keys.len(),
            forall|k: int| 0 <= k < i ==> words_view(keys@)[k] != w@,
        decreases keys.len() - i,
    {
        if eq_slices(keys[i].as_slice(), w) {
            assert(words_view(keys@)[i as int] == w@);
            return true;
        }
        i += 1;
    }
    false
}

fn insert_model(keys: &mut Vec<Vec<char>>, id: &[char])
    ensures
        words_view(final(keys)@) == allow_insert(words_view(old(keys)@), id@),
{
    let t = trim_slice(id);
    if t.len() == 0 || contains_word(keys.as_slice(), t) {
        return;
    }
    let ghost before = words_view(keys@);
    keys.push(concat2(t, &[]));
    assert(words_view(keys@) =~= before.push(trim(id@)));
}

fn model_allowlist_json(config: &WecodeConfig) -> (r: String)
    ensures
        r@ == json_text(allowlist_json(*config)),
{
    let ghost ids = allowlist_ids(*config);
    let mut ordered: Vec<Vec<char>> = Vec::new();
    ordered.push(str_chars(config.openclaw.model.as_str()));
    let mut i: usize = 0;
    while i < config.codex.models.len()
        invariant
            i <= config.codex.models.len(),
            words_view(ordered@) == seq![config.openclaw.model@] + strings_view(
                config.codex.models@,
            ).map_values(|m: Seq<char>| openclaw_model_id(m)).take(i as int),
        decreases config.codex.models.len() - i,
    {
        let m = str_chars(config.codex.models[i].as_str());
        let ghost before = words_view(ordered@);
        let id = model_id_chars(m.as_slice());
        ordered.push(id);
        proof {
            let mv = strings_view(config.codex.models@).map_values(|m: Seq<char>| openclaw_model_id(m));
            assert(mv.take(i + 1) =~= mv.take(i as int).push(mv[i as int]));
            assert(words_view(ordered@) =~= before.push(id@));
        }
        i += 1;
    }
    let ghost head = words_view(ordered@);
    match &config.codex.model {
        Some(m) => {
            let mc = str_chars(m.as_str());
            let id = model_id_chars(mc.as_slice());
            ordered.push(id);
            assert(words_view(ordered@) =~= head.push(id@));
        },
        None => {},
    }
    proof {
        let mv = strings_view(config.codex.models@).map_values(|m: Seq<char>| openclaw_model_id(m));
        assert(mv.take(config.codex.models.len() as int) =~= mv);
        assert(words_view(ordered@) =~= ids);
    }
    let mut keys: Vec<Vec<char>> = Vec::new();
    let mut k: usize = 0;
    while k < ordered.len()
        invariant
            k <= ordered.len(),
            words_view(ordered@) == ids,
            words_view(keys@) == allow_keys(ids.take(k as int)),
        decreases ordered.len() - k,
    {
        proof {
            assert(ids.take(k + 1).drop_last() =~= ids.take(k as int));
        }
        insert_model(&mut keys, ordered[k].as_slice());
        k += 1;
    }
    proof {
        assert(ids.take(ordered.len() as int) =~= ids);
    }
    let ghost kv = words_view(keys@);
    let mut fields: Vec<(String, JsonValue)> = Vec::new();
    let mut j: usize = 0;
    while j < keys.len()
        invariant
            j <= keys.len(),
            kv == words_view(keys@),
            fields@.len() == j,
            forall|q: int| 0 <= q < j ==> (#[trigger] field_views(fields@)[q]) == allowlist_entry(kv[q]),
        decreases keys.len() - j,
    {
        let alias = model_alias_chars(keys[j].as_slice());
        let mut entry: Vec<(String, JsonValue)> = Vec::new();
        entry.push((owned("alias"), jv_str(string_of(alias))));
        let value = jv_object(entry);
        assert(field_views(entry@) =~= seq![("alias"@, sj(openclaw_model_alias(kv[j as int])))]);
        let ghost before = fields@;
        fields.push((chars_to_string(keys[j].as_slice()), value));
        proof {
            assert forall|q: int| 0 <= q < j + 1 implies (#[trigger] field_views(fields@)[q]) == allowlist_entry(kv[q]) by {
                if q < j {
                    assert(field_views(fields@)[q] == field_views(before)[q]);
                }
            }
        }
        j += 1;
    }
    let v = jv_object(fields);
    assert(field_views(fields@) =~= kv.map_values(|id: Seq<char>| allowlist_entry(id)));
    render_json(&v)
}

fn config_set(config: &WecodeConfig, key: &str, value: String) -> (s: CommandStep)
    ensures
        same_step(s@, oc(*config, seq!["config"@, "set"@, key@, value@])),
{
    let mut args: Vec<String> = Vec::new();
    args.push(owned("config"));
    args.push(owned("set"));
    args.push(owned(key));
    args.push(value);
    let ghost a = strings_view(args@);
    let s = oc_run(config, args);
    assert(a =~= seq!["config"@, "set"@, key@, value@]);
    s
}

fn config_set_json(config: &WecodeConfig, key: &str, value: String, merge: bool) -> (s: CommandStep)
    ensures
        merge ==> same_step(
            s@,
            oc(*config, seq!["config"@, "set"@, key@, value@, "--strict-json"@, "--merge"@]),
        ),
        !merge ==> same_step(
            s@,
            oc(*config, seq!["config"@, "set"@, key@, value@, "--strict-json"@]),
        ),
{
    let mut args: Vec<String> = Vec::new();
    args.push(owned("config"));
    args.push(owned("set"));
    args.push(owned(key));
    args.push(value);
    args.push(owned("--strict-json"));
    if merge {
        args.push(owned("--merge"));
    }
    let ghost a = strings_view(args@);
    let s = oc_run(config, args);
    assert(merge ==> a =~= seq!["config"@, "set"@, key@, value@, "--strict-json"@, "--merge"@]);
    assert(!merge ==> a =~= seq!["config"@, "set"@, key@, value@, "--strict-json"@]);
    s
}

/// The steps that register wecode as OpenClaw's Codex backend.  The
/// workspace directory and the project directory come resolved (made
/// absolute) from the caller.
pub fn codex_bridge_config_plan(
    config: &WecodeConfig,
    backend_command: &str,
    workspace_dir: &str,
    project_cwd: &str,
) -> (steps: Vec<CommandStep>)
    ensures
        steps_are(steps@, bridge_views(*config, backend_command@, workspace_dir@, project_cwd@)),
{
    let mut steps: Vec<CommandStep> = Vec::new();
    steps.push(config_set(config, "gateway.port", number_text(config.openclaw.gateway_port as u64)));
    steps.push(config_set(config, "agents.defaults.workspace", owned(workspace_dir)));
    steps.push(
        config_set(
            config,
            "agents.defaults.timeoutSeconds",
            number_text(config.openclaw.timeout_seconds as u64),
        ),
    );
    steps.push(
        config_set_json(
            config,
            "agents.defaults.cliBackends",
            cli_backend_config_json(backend_command, project_cwd),
            true,
        ),
    );
    steps.push(
        config_set_json(config, "agents.defaults.models", model_allowlist_json(config), true),
    );
    steps.push(
        config_set_json(
            config,
            "agents.defaults.model",
            json_string_text(config.openclaw.model.as_str()),
            false,
        ),
    );
    steps
}

// ---------------------------------------------------------------------------
// Channels and whole plans
// ---------------------------------------------------------------------------

/// The Weixin installer, run with `npx` next to the private runtime.
pub open spec fn weixin_views(c: WecodeConfig) -> Seq<StepView> {
    seq![
        StepView {
            program: "npx"@,
            args: seq!["-y"@, "@tencent-weixin/openclaw-weixin-cli@latest"@, "install"@],
            path_prepend: node_path(c).push(bin_dir(c)),
            env: openclaw_env_view(c),
        },
    ]
}

/// The Feishu plugin, its login, and streaming card replies.
pub open spec fn feishu_views(c: WecodeConfig) -> Seq<StepView> {
    seq![
        oc(c, seq!["plugins"@, "install"@, "@openclaw/feishu"@, "--force"@]),
        oc(c, seq!["channels"@, "login"@, "--channel"@, "feishu"@]),
        oc(c, seq!["config"@, "set"@, "channels.feishu.streaming"@, "true"@, "--strict-json"@]),
        oc(
            c,
            seq![
                "config"@,
                "set"@,
                "channels.feishu.renderMode"@,
                json_text(sj("card"@)),
                "--strict-json"@,
            ],
        ),
        oc(c, seq!["config"@, "set"@, "channels.feishu.blockStreaming"@, "true"@, "--strict-json"@]),
    ]
}

pub open spec fn channel_views(c: WecodeConfig, channel: BootstrapChannel) -> Seq<StepView> {
    match channel {
        BootstrapChannel::Weixin => weixin_views(c),
        BootstrapChannel::Feishu => feishu_views(c),
    }
}

/// Install OpenClaw, connect it to the backend, connect the channel, then
/// install the gateway service.
pub open spec fn bootstrap_views(
    c: WecodeConfig,
    channel: BootstrapChannel,
    backend_command: Seq<char>,
    workspace_dir: Seq<char>,
    project_cwd: Seq<char>,
) -> Seq<StepView> {
    seq![install_view(c)] + bridge_views(c, backend_command, workspace_dir, project_cwd)
        + channel_views(c, channel) + seq![gateway_view(c)]
}

pub open spec fn codex_config_views(
    c: WecodeConfig,
    backend_command: Seq<char>,
    workspace_dir: Seq<char>,
    project_cwd: Seq<char>,
) -> Seq<StepView> {
    bridge_views(c, backend_command, workspace_dir, project_cwd) + seq![gateway_view(c)]
}

pub fn weixin_install_steps(config: &WecodeConfig) -> (steps: Vec<CommandStep>)
    ensures
        steps_are(steps@, weixin_views(*config)),
{
    let mut args: Vec<String> = Vec::new();
    args.push(owned("-y"));
    args.push(owned("@tencent-weixin/openclaw-weixin-cli@latest"));
    args.push(owned("install"));
    let ghost a = strings_view(args@);
    let step = with_node_path(
        CommandStep::from_vec(owned("npx"), args).with_envs(openclaw_env(config)),
        config,
    ).with_path_prepend(openclaw_bin_dir(config));
    let mut steps: Vec<CommandStep> = Vec::new();
    steps.push(step);
    proof {
        let w = weixin_views(*config)[0];
        assert(a =~= w.args);
        assert(step@.env =~= w.env);
        assert(step@.path_prepend =~= w.path_prepend);
        assert(steps@[0] == step);
    }
    steps
}

/// The first Weixin install step.
pub fn weixin_install_step(config: &WecodeConfig) -> (s: CommandStep)
    ensures
        same_step(s@, weixin_views(*config)[0]),
{
    let mut steps = weixin_install_steps(config);
    steps.remove(0)
}

fn four(a: &str, b: &str, c: &str, d: &str) -> (v: Vec<String>)
    ensures
        strings_view(v@) == seq![a@, b@, c@, d@],
{
    let mut v: Vec<String> = Vec::new();
    v.push(owned(a));
    v.push(owned(b));
    v.push(owned(c));
    v.push(owned(d));
    assert(strings_view(v@) =~= seq![a@, b@, c@, d@]);
    v
}

pub fn feishu_install_steps(config: &WecodeConfig) -> (steps: Vec<CommandStep>)
    ensures
        steps_are(steps@, feishu_views(*config)),
{
    let mut steps: Vec<CommandStep> = Vec::new();
    steps.push(oc_run(config, four("plugins", "install", "@openclaw/feishu", "--force")));
    steps.push(oc_run(config, four("channels", "login", "--channel", "feishu")));
    steps.push(config_set_json(config, "channels.feishu.streaming", owned("true"), false));
    steps.push(
        config_set_json(config, "channels.feishu.renderMode", json_string_text("card"), false),
    );
    steps.push(config_set_json(config, "channels.feishu.blockStreaming", owned("true"), false));
    steps
}

pub fn channel_install_steps(config: &WecodeConfig, channel: BootstrapChannel) -> (steps: Vec<
    CommandStep,
>)
    ensures
        steps_are(steps@, channel_views(*config, channel)),
{
    match channel {
        BootstrapChannel::Weixin => weixin_install_steps(config),
        BootstrapChannel::Feishu => feishu_install_steps(config),
    }
}

proof fn lemma_steps_append(
    a: Seq<CommandStep>,
    b: Seq<CommandStep>,
    ea: Seq<StepView>,
    eb: Seq<StepView>,
)
    requires
        steps_are(a, ea),
        steps_are(b, eb),
    ensures
        steps_are(a + b, ea + eb),
{
    assert forall|i: int| 0 <= i < (a + b).len() implies same_step(
        #[trigger] (a + b)[i]@,
        (ea + eb)[i],
    ) by {
        if i < a.len() {
            assert((a + b)[i] == a[i]);
        } else {
            assert((a + b)[i] == b[i - a.len()]);
        }
    }
}

/// The whole bootstrap: install, backend registration, channel, gateway.
pub fn bootstrap_plan_with_backend_command(
    config: &WecodeConfig,
    channel: BootstrapChannel,
    backend_command: &str,
    workspace_dir: &str,
    project_cwd: &str,
) -> (steps: Vec<CommandStep>)
    ensures
        steps_are(
            steps@,
            bootstrap_views(*config, channel, backend_command@, workspace_dir@, project_cwd@),
        ),
{
    let mut steps: Vec<CommandStep> = Vec::new();
    steps.push(openclaw_install_step(config));
    let ghost s0 = steps@;
    assert(steps_are(s0, seq![install_view(*config)]));
    let mut bridge = codex_bridge_config_plan(config, backend_command, workspace_dir, project_cwd);
    let ghost b = bridge@;
    steps.append(&mut bridge);
    proof {
        lemma_steps_append(
            s0,
            b,
            seq![install_view(*config)],
            bridge_views(*config, backend_command@, workspace_dir@, project_cwd@),
        );
    }
    let ghost s1 = steps@;
    let mut chan = channel_install_steps(config, channel);
    let ghost ch = chan@;
    steps.append(&mut chan);
    proof {
        lemma_steps_append(
            s1,
            ch,
            seq![install_view(*config)] + bridge_views(
                *config,
                backend_command@,
                workspace_dir@,
                project_cwd@,
            ),
            channel_views(*config, channel),
        );
    }
    let ghost s2 = steps@;
    let gateway = gateway_install_step(config);
    steps.push(gateway);
    proof {
        assert(steps@ == s2 + seq![gateway]);
        assert(steps_are(seq![gateway], seq![gateway_view(*config)]));
        lemma_steps_append(
            s2,
            seq![gateway],
            seq![install_view(*config)] + bridge_views(
                *config,
                backend_command@,
                workspace_dir@,
                project_cwd@,
            ) + channel_views(*config, channel),
            seq![gateway_view(*config)],
        );
    }
    steps
}

/// The bootstrap plan run through the `wecode` found on `PATH`.
pub fn bootstrap_plan(
    config: &WecodeConfig,
    channel: BootstrapChannel,
    workspace_dir: &str,
    project_cwd: &str,
) -> (steps: Vec<CommandStep>)
    ensures
        steps_are(steps@, bootstrap_views(*config, channel, "wecode"@, workspace_dir@, project_cwd@)),
{
    bootstrap_plan_with_backend_command(config, channel, "wecode", workspace_dir, project_cwd)
}

/// Re-registers the backend and reinstalls the gateway (`configure-codex`).
pub fn codex_config_plan_with_backend_command(
    config: &WecodeConfig,
    backend_command: &str,
    workspace_dir: &str,
    project_cwd: &str,
) -> (steps: Vec<CommandStep>)
    ensures
        steps_are(steps@, codex_config_views(*config, backend_command@, workspace_dir@, project_cwd@)),
{
    let mut steps = codex_bridge_config_plan(config, backend_command, workspace_dir, project_cwd);
    let ghost s0 = steps@;
    let gateway = gateway_install_step(config);
    steps.push(gateway);
    proof {
        assert(steps@ == s0 + seq![gateway]);
        assert(steps_are(seq![gateway], seq![gateway_view(*config)]));
        lemma_steps_append(
            s0,
            seq![gateway],
            bridge_views(*config, backend_command@, workspace_dir@, project_cwd@),
            seq![gateway_view(*config)],
        );
    }
    steps
}

pub fn codex_config_plan(config: &WecodeConfig, workspace_dir: &str, project_cwd: &str) -> (steps:
    Vec<CommandStep>)
    ensures
        steps_are(steps@, codex_config_views(*config, "wecode"@, workspace_dir@, project_cwd@)),
{
    codex_config_plan_with_backend_command(config, "wecode", workspace_dir, project_cwd)
}

// ---------------------------------------------------------------------------
// Laws
// ---------------------------------------------------------------------------

/// Keeping the gateway awake is idempotent: applying an on mode to
/// arguments that already carry it changes nothing (so the plist is not
/// rewritten on every start).
pub proof fn law_prevent_sleep_idempotent(args: Seq<Seq<char>>, mode: PreventSleepMode)
    requires
        mode != PreventSleepMode::Off,
    ensures
        prevent_sleep_args(prevent_sleep_args(args, mode), mode) == prevent_sleep_args(args, mode),
{
    let once = prevent_sleep_args(args, mode);
    assert(once[0] == CAFFEINATE_PATH@);
    assert(once.skip(2) =~= strip_caffeinate(args));
}

/// Turning sleep prevention off after it was on gives back the unwrapped
/// arguments.
pub proof fn law_prevent_sleep_off_restores(args: Seq<Seq<char>>, mode: PreventSleepMode)
    requires
        mode != PreventSleepMode::Off,
    ensures
        prevent_sleep_args(prevent_sleep_args(args, mode), PreventSleepMode::Off) == strip_caffeinate(
            args,
        ),
{
    let once = prevent_sleep_args(args, mode);
    assert(once.skip(2) =~= strip_caffeinate(args));
}

} // verus!
