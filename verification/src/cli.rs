//! Command-line parsing for the `wecode` program.
use crate::text::{
    chars_to_string, concat2, join, join_chars, lit_eq, lit_then, opt_string, str_chars, words_view,
};
use vstd::prelude::*;

verus! {

#[derive(Debug, Clone, Copy, PartialEq, Eq, Structural)]
pub enum BootstrapChannel {
    Weixin,
    Feishu,
}

#[derive(Debug, Clone, PartialEq, Eq)]
pub enum CliCommand {
    Help,
    Doctor,
    SampleConfig,
    ConfigValidate { path: Option<String> },
    RuntimeStatus { config_path: Option<String> },
    Bootstrap { config_path: Option<String>, dry_run: bool, channel: BootstrapChannel },
    PatchOpenclawRuntime { runtime_dir: String },
    InstallWeixin,
    ConfigureCodex { config_path: Option<String> },
    Codex { config_path: Option<String>, prompt: String },
    CodexBackend {
        config_path: Option<String>,
        jsonl: bool,
        model: Option<String>,
        cwd: Option<String>,
        prompt: Option<String>,
        resume_session_id: Option<String>,
    },
    Render { config_path: Option<String>, input: String },
}

/// Mathematical view of a `CliCommand`.
pub enum CliView {
    Help,
    Doctor,
    SampleConfig,
    ConfigValidate(Option<Seq<char>>),
    RuntimeStatus(Option<Seq<char>>),
    Bootstrap(Option<Seq<char>>, bool, BootstrapChannel),
    PatchOpenclawRuntime(Seq<char>),
    InstallWeixin,
    ConfigureCodex(Option<Seq<char>>),
    Codex(Option<Seq<char>>, Seq<char>),
    CodexBackend(BackendArgs),
    Render(Option<Seq<char>>, Seq<char>),
}

/// The options of `codex-backend`.
pub struct BackendArgs {
    pub config_path: Option<Seq<char>>,
    pub jsonl: bool,
    pub model: Option<Seq<char>>,
    pub cwd: Option<Seq<char>>,
    pub prompt: Option<Seq<char>>,
    pub resume_session_id: Option<Seq<char>>,
}

impl View for CliCommand {
    type V = CliView;

    open spec fn view(&self) -> CliView {
        match self {
            CliCommand::Help => CliView::Help,
            CliCommand::Doctor => CliView::Doctor,
            CliCommand::SampleConfig => CliView::SampleConfig,
            CliCommand::ConfigValidate { path } => CliView::ConfigValidate(opt_string(*path)),
            CliCommand::RuntimeStatus { config_path } => CliView::RuntimeStatus(opt_string(*config_path)),
            CliCommand::Bootstrap { config_path, dry_run, channel } => CliView::Bootstrap(
                opt_string(*config_path),
                *dry_run,
                *channel,
            ),
            CliCommand::PatchOpenclawRuntime { runtime_dir } => CliView::PatchOpenclawRuntime(
                runtime_dir@,
            ),
            CliCommand::InstallWeixin => CliView::InstallWeixin,
            CliCommand::ConfigureCodex { config_path } => CliView::ConfigureCodex(opt_string(*config_path)),
            CliCommand::Codex { config_path, prompt } => CliView::Codex(opt_string(*config_path), prompt@),
            CliCommand::CodexBackend {
                config_path,
                jsonl,
                model,
                cwd,
                prompt,
                resume_session_id,
            } => CliView::CodexBackend(
                BackendArgs {
                    config_path: opt_string(*config_path),
                    jsonl: *jsonl,
                    model: opt_string(*model),
                    cwd: opt_string(*cwd),
                    prompt: opt_string(*prompt),
                    resume_session_id: opt_string(*resume_session_id),
                },
            ),
            CliCommand::Render { config_path, input } => CliView::Render(opt_string(*config_path), input@),
        }
    }
}

// ---------------------------------------------------------------------------
// Specification of the argument grammar
// ---------------------------------------------------------------------------

/// `--config <path>` anywhere, the other arguments kept in order.
pub open spec fn optional_config(
    a: Seq<Seq<char>>,
    i: int,
    config: Option<Seq<char>>,
    rest: Seq<Seq<char>>,
) -> Result<(Option<Seq<char>>, Seq<Seq<char>>), Seq<char>>
    decreases a.len() - i,
{
    if i < 0 || i >= a.len() {
        Ok((config, rest))
    } else if a[i] == "--config"@ {
        if i + 1 >= a.len() {
            Err("--config requires a path"@)
        } else {
            optional_config(a, i + 2, Some(a[i + 1]), rest)
        }
    } else {
        optional_config(a, i + 1, config, rest.push(a[i]))
    }
}

pub open spec fn channel_conflict(current: Option<BootstrapChannel>, next: BootstrapChannel) -> bool {
    current matches Some(c) && c != next
}

pub open spec fn bootstrap_scan(
    a: Seq<Seq<char>>,
    i: int,
    config: Option<Seq<char>>,
    dry_run: bool,
    channel: Option<BootstrapChannel>,
) -> Result<CliView, Seq<char>>
    decreases a.len() - i,
{
    if i < 0 || i >= a.len() {
        Ok(
            CliView::Bootstrap(
                config,
                dry_run,
                match channel {
                    Some(c) => c,
                    None => BootstrapChannel::Weixin,
                },
            ),
        )
    } else if a[i] == "--dry-run"@ {
        bootstrap_scan(a, i + 1, config, true, channel)
    } else if a[i] == "--weixin"@ {
        if channel_conflict(channel, BootstrapChannel::Weixin) {
            Err("bootstrap channel flags are mutually exclusive"@)
        } else {
            bootstrap_scan(a, i + 1, config, dry_run, Some(BootstrapChannel::Weixin))
        }
    } else if a[i] == "--feishu"@ {
        if channel_conflict(channel, BootstrapChannel::Feishu) {
            Err("bootstrap channel flags are mutually exclusive"@)
        } else {
            bootstrap_scan(a, i + 1, config, dry_run, Some(BootstrapChannel::Feishu))
        }
    } else if a[i] == "--config"@ {
        if i + 1 >= a.len() {
            Err("--config requires a path"@)
        } else {
            bootstrap_scan(a, i + 2, Some(a[i + 1]), dry_run, channel)
        }
    } else {
        Err("unexpected bootstrap argument: "@ + a[i])
    }
}

pub open spec fn patch_scan(a: Seq<Seq<char>>, i: int, runtime_dir: Option<Seq<char>>) -> Result<
    CliView,
    Seq<char>,
>
    decreases a.len() - i,
{
    if i < 0 || i >= a.len() {
        match runtime_dir {
            Some(d) => Ok(CliView::PatchOpenclawRuntime(d)),
            None => Err("patch-openclaw-runtime requires --runtime-dir"@),
        }
    } else if a[i] == "--runtime-dir"@ {
        if i + 1 >= a.len() {
            Err("--runtime-dir requires a path"@)
        } else {
            patch_scan(a, i + 2, Some(a[i + 1]))
        }
    } else if a[i] == "--state-dir"@ {
        if i + 1 >= a.len() {
            Err("--state-dir requires a path"@)
        } else {
            patch_scan(a, i + 2, runtime_dir)
        }
    } else {
        Err("unexpected patch-openclaw-runtime argument: "@ + a[i])
    }
}

pub open spec fn backend_scan(a: Seq<Seq<char>>, i: int, st: BackendArgs, words: Seq<Seq<char>>) -> Result<
    CliView,
    Seq<char>,
>
    decreases a.len() - i,
{
    if i < 0 || i >= a.len() {
        Ok(
            CliView::CodexBackend(
                BackendArgs {
                    prompt: if words.len() > 0 {
                        Some(join(words, " "@))
                    } else {
                        None
                    },
                    ..st
                },
            ),
        )
    } else if a[i] == "--config"@ {
        if i + 1 >= a.len() {
            Err("--config requires a path"@)
        } else {
            backend_scan(a, i + 2, BackendArgs { config_path: Some(a[i + 1]), ..st }, words)
        }
    } else if a[i] == "--jsonl"@ {
        backend_scan(a, i + 1, BackendArgs { jsonl: true, ..st }, words)
    } else if a[i] == "--model"@ {
        if i + 1 >= a.len() {
            Err("--model requires an OpenClaw model id"@)
        } else {
            backend_scan(a, i + 2, BackendArgs { model: Some(a[i + 1]), ..st }, words)
        }
    } else if a[i] == "--cwd"@ {
        if i + 1 >= a.len() {
            Err("--cwd requires a project directory"@)
        } else {
            backend_scan(a, i + 2, BackendArgs { cwd: Some(a[i + 1]), ..st }, words)
        }
    } else if a[i] == "--resume"@ {
        if i + 1 >= a.len() {
            Err("--resume requires a Codex thread id"@)
        } else {
            backend_scan(a, i + 2, BackendArgs { resume_session_id: Some(a[i + 1]), ..st }, words)
        }
    } else if a[i] == "--"@ {
        backend_scan(a, a.len() as int, st, words + a.skip(i + 1))
    } else {
        backend_scan(a, i + 1, st, words.push(a[i]))
    }
}

pub open spec fn no_backend_args() -> BackendArgs {
    BackendArgs {
        config_path: None,
        jsonl: false,
        model: None,
        cwd: None,
        prompt: None,
        resume_session_id: None,
    }
}

pub open spec fn config_subcommand(tail: Seq<Seq<char>>) -> Result<CliView, Seq<char>> {
    if tail.len() == 0 {
        Err("config requires a subcommand"@)
    } else if tail[0] == "validate"@ {
        Ok(CliView::ConfigValidate(if tail.len() > 1 { Some(tail[1]) } else { None }))
    } else {
        Err("unknown config command: "@ + tail[0])
    }
}

/// A command that takes only `--config`.
pub open spec fn config_only(tail: Seq<Seq<char>>, unexpected: Seq<char>, make: spec_fn(
    Option<Seq<char>>,
) -> CliView) -> Result<CliView, Seq<char>> {
    match optional_config(tail, 0, None, Seq::empty()) {
        Err(e) => Err(e),
        Ok((config, rest)) => if rest.len() > 0 {
            Err(unexpected + rest[0])
        } else {
            Ok(make(config))
        },
    }
}

/// A command whose other arguments are joined into one text.
pub open spec fn config_and_text(tail: Seq<Seq<char>>, missing: Seq<char>, make: spec_fn(
    Option<Seq<char>>,
    Seq<char>,
) -> CliView) -> Result<CliView, Seq<char>> {
    match optional_config(tail, 0, None, Seq::empty()) {
        Err(e) => Err(e),
        Ok((config, rest)) => if rest.len() == 0 {
            Err(missing)
        } else {
            Ok(make(config, join(rest, " "@)))
        },
    }
}

/// The command named by the program arguments (the first argument is the
/// program name).
pub open spec fn cli_command(args: Seq<Seq<char>>) -> Result<CliView, Seq<char>> {
    let a = if args.len() > 0 {
        args.drop_first()
    } else {
        args
    };
    if a.len() == 0 {
        Ok(CliView::Help)
    } else {
        let c = a[0];
        let tail = a.drop_first();
        if c == "help"@ || c == "--help"@ || c == "-h"@ {
            Ok(CliView::Help)
        } else if c == "doctor"@ {
            Ok(CliView::Doctor)
        } else if c == "sample-config"@ {
            Ok(CliView::SampleConfig)
        } else if c == "install-weixin"@ {
            Ok(CliView::InstallWeixin)
        } else if c == "patch-openclaw-runtime"@ {
            patch_scan(tail, 0, None)
        } else if c == "config"@ {
            config_subcommand(tail)
        } else if c == "runtime-status"@ {
            config_only(tail, "unexpected runtime-status argument: "@, |p: Option<Seq<char>>| CliView::RuntimeStatus(p))
        } else if c == "bootstrap"@ {
            bootstrap_scan(tail, 0, None, false, None)
        } else if c == "configure-codex"@ {
            config_only(tail, "unexpected configure-codex argument: "@, |p: Option<Seq<char>>| CliView::ConfigureCodex(p))
        } else if c == "codex"@ || c == "ask"@ {
            config_and_text(
                tail,
                "codex requires a prompt"@,
                |p: Option<Seq<char>>, t: Seq<char>| CliView::Codex(p, t),
            )
        } else if c == "codex-backend"@ {
            backend_scan(tail, 0, no_backend_args(), Seq::empty())
        } else if c == "render"@ {
            config_and_text(
                tail,
                "render requires an input message"@,
                |p: Option<Seq<char>>, t: Seq<char>| CliView::Render(p, t),
            )
        } else {
            Err("unknown command: "@ + c)
        }
    }
}

pub open spec fn arg_views(args: Seq<&str>) -> Seq<Seq<char>> {
    args.map_values(|a: &str| a@)
}


pub open spec fn cli_result_view(r: Result<CliCommand, String>) -> Result<CliView, Seq<char>> {
    match r {
        Ok(c) => Ok(c@),
        Err(e) => Err(e@),
    }
}

// ---------------------------------------------------------------------------
// Executable parsing
// ---------------------------------------------------------------------------

fn copy_chars(s: &[char]) -> (v: Vec<char>)
    ensures
        v@ == s@,
{
    concat2(s, &[])
}

fn string_of(v: Vec<char>) -> (s: String)
    ensures
        s@ == v@,
{
    chars_to_string(v.as_slice())
}

/// The characters of `args[start..]`, one vector per argument.
fn words_from(args: &[&str], start: usize) -> (w: Vec<Vec<char>>)
    requires
        start <= args.len(),
    ensures
        words_view(w@) == arg_views(args@).skip(start as int),
{
    let ghost av = arg_views(args@);
    let mut w: Vec<Vec<char>> = Vec::new();
    let mut i: usize = start;
    while i < args.len()
        invariant
            start <= i <= args.len(),
            av == arg_views(args@),
            words_view(w@) == av.subrange(start as int, i as int),
        decreases args.len() - i,
    {
        let v = str_chars(args[i]);
        let ghost before = w@;
        w.push(v);
        proof {
            assert(av[i as int] == v@);
            assert(words_view(w@) =~= words_view(before).push(v@));
            assert(av.subrange(start as int, i + 1) =~= av.subrange(start as int, i as int).push(
                av[i as int],
            ));
        }
        i += 1;
    }
    proof {
        assert(av.subrange(start as int, args.len() as int) =~= av.skip(start as int));
    }
    w
}

/// The arguments joined by single spaces.
fn join_words(ws: &[Vec<char>]) -> (s: String)
    ensures
        s@ == join(words_view(ws@), " "@),
{
    string_of(join_chars(ws, " "))
}

/// Appends the views of `a[from..]` to `words`.
fn append_words(words: &mut Vec<Vec<char>>, a: &[Vec<char>], from: usize)
    requires
        from <= a.len(),
    ensures
        words_view(final(words)@) == words_view(old(words)@) + words_view(a@).skip(from as int),
{
    let ghost start = words_view(words@);
    let ghost av = words_view(a@);
    let mut j: usize = from;
    while j < a.len()
        invariant
            from <= j <= a.len(),
            av == words_view(a@),
            words_view(words@) == start + av.subrange(from as int, j as int),
        decreases a.len() - j,
    {
        let ghost before = words@;
        let v = copy_chars(a[j].as_slice());
        words.push(v);
        proof {
            assert(av[j as int] == v@);
            assert(words_view(words@) =~= words_view(before).push(v@));
            assert(av.subrange(from as int, j + 1) =~= av.subrange(from as int, j as int).push(
                av[j as int],
            ));
        }
        j += 1;
    }
    proof {
        assert(av.subrange(from as int, a.len() as int) =~= av.skip(from as int));
    }
}

/// Takes `--config <path>` out of the arguments and keeps the others.
fn parse_optional_config(a: &[Vec<char>]) -> (r: Result<(Option<String>, Vec<Vec<char>>), String>)
    ensures
        optional_config(words_view(a@), 0, None, Seq::empty()) == match r {
            Ok((c, rest)) => Ok((opt_string(c), words_view(rest@))),
            Err(e) => Err(e@),
        },
{
    let ghost w = words_view(a@);
    let mut config: Option<String> = None;
    let mut rest: Vec<Vec<char>> = Vec::new();
    let mut i: usize = 0;
    proof {
        assert(words_view(rest@) =~= Seq::<Seq<char>>::empty());
    }
    while i < a.len()
        invariant
            i <= a.len(),
            w == words_view(a@),
            optional_config(w, 0, None, Seq::empty()) == optional_config(
                w,
                i as int,
                opt_string(config),
                words_view(rest@),
            ),
        decreases a.len() - i,
    {
        if lit_eq(a[i].as_slice(), "--config") {
            if i + 1 >= a.len() {
                return Err("--config requires a path".to_owned());
            }
            config = Some(chars_to_string(a[i + 1].as_slice()));
            i += 2;
        } else {
            let ghost before = words_view(rest@);
            rest.push(copy_chars(a[i].as_slice()));
            proof {
                assert(words_view(rest@) =~= before.push(w[i as int]));
            }
            i += 1;
        }
    }
    Ok((config, rest))
}

fn parse_config_command(a: &[Vec<char>]) -> (r: Result<CliCommand, String>)
    ensures
        cli_result_view(r) == config_subcommand(words_view(a@)),
{
    if a.len() == 0 {
        return Err("config requires a subcommand".to_owned());
    }
    if lit_eq(a[0].as_slice(), "validate") {
        let path = if a.len() > 1 {
            Some(chars_to_string(a[1].as_slice()))
        } else {
            None
        };
        Ok(CliCommand::ConfigValidate { path })
    } else {
        Err(string_of(lit_then("unknown config command: ", a[0].as_slice())))
    }
}

/// Records the channel flag `next`; a second, different channel flag is an
/// error and leaves `current` as it was.
fn set_bootstrap_channel(current: &mut Option<BootstrapChannel>, next: BootstrapChannel) -> (r:
    Result<(), String>)
    ensures
        r is Ok <==> !channel_conflict(*old(current), next),
        r is Ok ==> *final(current) == Some(next),
        r matches Err(e) ==> e@ == "bootstrap channel flags are mutually exclusive"@,
        r is Err ==> *final(current) == *old(current),
{
    if let Some(existing) = current {
        if *existing != next {
            return Err("bootstrap channel flags are mutually exclusive".to_owned());
        }
    }
    *current = Some(next);
    Ok(())
}

fn parse_bootstrap_command(a: &[Vec<char>]) -> (r: Result<CliCommand, String>)
    ensures
        cli_result_view(r) == bootstrap_scan(words_view(a@), 0, None, false, None),
{
    let ghost w = words_view(a@);
    let mut config_path: Option<String> = None;
    let mut dry_run = false;
    let mut channel: Option<BootstrapChannel> = None;
    let mut i: usize = 0;
    while i < a.len()
        invariant
            i <= a.len(),
            w == words_view(a@),
            bootstrap_scan(w, 0, None, false, None) == bootstrap_scan(
                w,
                i as int,
                opt_string(config_path),
                dry_run,
                channel,
            ),
        decreases a.len() - i,
    {
        let arg = a[i].as_slice();
        if lit_eq(arg, "--dry-run") {
            dry_run = true;
            i += 1;
        } else if lit_eq(arg, "--weixin") {
            if let Err(e) = set_bootstrap_channel(&mut channel, BootstrapChannel::Weixin) {
                return Err(e);
            }
            i += 1;
        } else if lit_eq(arg, "--feishu") {
            if let Err(e) = set_bootstrap_channel(&mut channel, BootstrapChannel::Feishu) {
                return Err(e);
            }
            i += 1;
        } else if lit_eq(arg, "--config") {
            if i + 1 >= a.len() {
                return Err("--config requires a path".to_owned());
            }
            config_path = Some(chars_to_string(a[i + 1].as_slice()));
            i += 2;
        } else {
            return Err(string_of(lit_then("unexpected bootstrap argument: ", arg)));
        }
    }
    let channel = match channel {
        Some(c) => c,
        None => BootstrapChannel::Weixin,
    };
    Ok(CliCommand::Bootstrap { config_path, dry_run, channel })
}

fn parse_patch_openclaw_runtime_command(a: &[Vec<char>]) -> (r: Result<CliCommand, String>)
    ensures
        cli_result_view(r) == patch_scan(words_view(a@), 0, None),
{
    let ghost w = words_view(a@);
    let mut runtime_dir: Option<String> = None;
    let mut i: usize = 0;
    while i < a.len()
        invariant
            i <= a.len(),
            w == words_view(a@),
            patch_scan(w, 0, None) == patch_scan(w, i as int, opt_string(runtime_dir)),
        decreases a.len() - i,
    {
        let arg = a[i].as_slice();
        if lit_eq(arg, "--runtime-dir") {
            if i + 1 >= a.len() {
                return Err("--runtime-dir requires a path".to_owned());
            }
            runtime_dir = Some(chars_to_string(a[i + 1].as_slice()));
            i += 2;
        } else if lit_eq(arg, "--state-dir") {
            if i + 1 >= a.len() {
                return Err("--state-dir requires a path".to_owned());
            }
            i += 2;
        } else {
            return Err(string_of(lit_then("unexpected patch-openclaw-runtime argument: ", arg)));
        }
    }
    match runtime_dir {
        Some(runtime_dir) => Ok(CliCommand::PatchOpenclawRuntime { runtime_dir }),
        None => Err("patch-openclaw-runtime requires --runtime-dir".to_owned()),
    }
}

pub open spec fn backend_state(
    config: Option<String>,
    jsonl: bool,
    model: Option<String>,
    cwd: Option<String>,
    resume: Option<String>,
) -> BackendArgs {
    BackendArgs {
        config_path: opt_string(config),
        jsonl,
        model: opt_string(model),
        cwd: opt_string(cwd),
        prompt: None,
        resume_session_id: opt_string(resume),
    }
}

fn parse_codex_backend_command(a: &[Vec<char>]) -> (r: Result<CliCommand, String>)
    ensures
        cli_result_view(r) == backend_scan(words_view(a@), 0, no_backend_args(), Seq::empty()),
{
    let ghost w = words_view(a@);
    let mut config_path: Option<String> = None;
    let mut jsonl = false;
    let mut model: Option<String> = None;
    let mut cwd: Option<String> = None;
    let mut resume_session_id: Option<String> = None;
    let mut words: Vec<Vec<char>> = Vec::new();
    let mut i: usize = 0;
    proof {
        assert(words_view(words@) =~= Seq::<Seq<char>>::empty());
    }
    while i < a.len()
        invariant
            i <= a.len(),
            w == words_view(a@),
            backend_scan(w, 0, no_backend_args(), Seq::empty()) == backend_scan(
                w,
                i as int,
                backend_state(config_path, jsonl, model, cwd, resume_session_id),
                words_view(words@),
            ),
        decreases a.len() - i,
    {
        let arg = a[i].as_slice();
        if lit_eq(arg, "--config") {
            if i + 1 >= a.len() {
                return Err("--config requires a path".to_owned());
            }
            config_path = Some(chars_to_string(a[i + 1].as_slice()));
            i += 2;
        } else if lit_eq(arg, "--jsonl") {
            jsonl = true;
            i += 1;
        } else if lit_eq(arg, "--model") {
            if i + 1 >= a.len() {
                return Err("--model requires an OpenClaw model id".to_owned());
            }
            model = Some(chars_to_string(a[i + 1].as_slice()));
            i += 2;
        } else if lit_eq(arg, "--cwd") {
            if i + 1 >= a.len() {
                return Err("--cwd requires a project directory".to_owned());
            }
            cwd = Some(chars_to_string(a[i + 1].as_slice()));
            i += 2;
        } else if lit_eq(arg, "--resume") {
            if i + 1 >= a.len() {
                return Err("--resume requires a Codex thread id".to_owned());
            }
            resume_session_id = Some(chars_to_string(a[i + 1].as_slice()));
            i += 2;
        } else if lit_eq(arg, "--") {
            append_words(&mut words, a, i + 1);
            i = a.len();
        } else {
            let ghost before = words_view(words@);
            words.push(copy_chars(arg));
            proof {
                assert(words_view(words@) =~= before.push(w[i as int]));
            }
            i += 1;
        }
    }
    let prompt = if words.len() > 0 {
        Some(join_words(words.as_slice()))
    } else {
        None
    };
    Ok(CliCommand::CodexBackend { config_path, jsonl, model, cwd, prompt, resume_session_id })
}

/// Parses the program arguments; the first one is the program name.
pub fn parse_cli_words(args: &[&str]) -> (r: Result<CliCommand, String>)
    ensures
        cli_result_view(r) == cli_command(arg_views(args@)),
{
    let ghost av = arg_views(args@);
    if args.len() < 2 {
        return Ok(CliCommand::Help);
    }
    let c = str_chars(args[1]);
    let tail = words_from(args, 2);
    proof {
        assert(av.drop_first().drop_first() =~= av.skip(2));
        assert(av.drop_first()[0] == c@);
    }
    let cs = c.as_slice();
    let t = tail.as_slice();
    if lit_eq(cs, "help") || lit_eq(cs, "--help") || lit_eq(cs, "-h") {
        Ok(CliCommand::Help)
    } else if lit_eq(cs, "doctor") {
        Ok(CliCommand::Doctor)
    } else if lit_eq(cs, "sample-config") {
        Ok(CliCommand::SampleConfig)
    } else if lit_eq(cs, "install-weixin") {
        Ok(CliCommand::InstallWeixin)
    } else if lit_eq(cs, "patch-openclaw-runtime") {
        parse_patch_openclaw_runtime_command(t)
    } else if lit_eq(cs, "config") {
        parse_config_command(t)
    } else if lit_eq(cs, "runtime-status") {
        match parse_optional_config(t) {
            Err(e) => Err(e),
            Ok((config_path, rest)) => {
                if rest.len() > 0 {
                    Err(
                        string_of(
                            lit_then("unexpected runtime-status argument: ", rest[0].as_slice()),
                        ),
                    )
                } else {
                    Ok(CliCommand::RuntimeStatus { config_path })
                }
            },
        }
    } else if lit_eq(cs, "bootstrap") {
        parse_bootstrap_command(t)
    } else if lit_eq(cs, "configure-codex") {
        match parse_optional_config(t) {
            Err(e) => Err(e),
            Ok((config_path, rest)) => {
                if rest.len() > 0 {
                    Err(
                        string_of(
                            lit_then("unexpected configure-codex argument: ", rest[0].as_slice()),
                        ),
                    )
                } else {
                    Ok(CliCommand::ConfigureCodex { config_path })
                }
            },
        }
    } else if lit_eq(cs, "codex") || lit_eq(cs, "ask") {
        match parse_optional_config(t) {
            Err(e) => Err(e),
            Ok((config_path, rest)) => {
                if rest.len() == 0 {
                    Err("codex requires a prompt".to_owned())
                } else {
                    Ok(CliCommand::Codex { config_path, prompt: join_words(rest.as_slice()) })
                }
            },
        }
    } else if lit_eq(cs, "codex-backend") {
        parse_codex_backend_command(t)
    } else if lit_eq(cs, "render") {
        match parse_optional_config(t) {
            Err(e) => Err(e),
            Ok((config_path, rest)) => {
                if rest.len() == 0 {
                    Err("render requires an input message".to_owned())
                } else {
                    Ok(CliCommand::Render { config_path, input: join_words(rest.as_slice()) })
                }
            },
        }
    } else {
        Err(string_of(lit_then("unknown command: ", cs)))
    }
}

/// Parses a fixed list of program arguments; the first one is the program
/// name.
pub fn parse_cli_args<const N: usize>(args: [&str; N]) -> (r: Result<CliCommand, String>)
    ensures
        cli_result_view(r) == cli_command(arg_views(args@)),
{
    parse_cli_words(args.as_slice())
}

/// The configuration file that a successful bootstrap parse carries.
pub open spec fn bootstrap_config(r: Result<CliView, Seq<char>>) -> Option<Option<Seq<char>>> {
    match r {
        Ok(CliView::Bootstrap(c, _, _)) => Some(c),
        _ => None,
    }
}

proof fn lemma_bootstrap_config_kept(
    a: Seq<Seq<char>>,
    i: int,
    config: Option<Seq<char>>,
    dry_run: bool,
    channel: Option<BootstrapChannel>,
)
    requires
        0 <= i,
        forall|j: int| i <= j < a.len() ==> a[j] != "--config"@,
    ensures
        bootstrap_config(bootstrap_scan(a, i, config, dry_run, channel)) matches Some(c) ==> c == config,
    decreases a.len() - i,
{
    if i < a.len() {
        if a[i] == "--dry-run"@ {
            lemma_bootstrap_config_kept(a, i + 1, config, true, channel);
        } else if a[i] == "--weixin"@ {
            lemma_bootstrap_config_kept(a, i + 1, config, dry_run, Some(BootstrapChannel::Weixin));
        } else if a[i] == "--feishu"@ {
            lemma_bootstrap_config_kept(a, i + 1, config, dry_run, Some(BootstrapChannel::Feishu));
        }
    }
}

proof fn lemma_bootstrap_config_found(
    a: Seq<Seq<char>>,
    i: int,
    k: int,
    config: Option<Seq<char>>,
    dry_run: bool,
    channel: Option<BootstrapChannel>,
)
    requires
        0 <= i <= k,
        k + 1 < a.len(),
        a[k] == "--config"@,
        k == 0 || a[k - 1] != "--config"@,
        forall|j: int| k + 2 <= j < a.len() ==> a[j] != "--config"@,
    ensures
        bootstrap_config(bootstrap_scan(a, i, config, dry_run, channel)) matches Some(c) ==> c == Some(
            a[k + 1],
        ),
    decreases k - i,
{
    reveal_strlit("--config");
    reveal_strlit("--dry-run");
    reveal_strlit("--weixin");
    reveal_strlit("--feishu");
    assert("--config"@[2] == 'c' && "--dry-run"@[2] == 'd' && "--weixin"@[2] == 'w' && "--feishu"@[2] == 'f');
    if i == k {
        lemma_bootstrap_config_kept(a, k + 2, Some(a[k + 1]), dry_run, channel);
    } else if a[i] == "--dry-run"@ {
        lemma_bootstrap_config_found(a, i + 1, k, config, true, channel);
    } else if a[i] == "--weixin"@ {
        lemma_bootstrap_config_found(a, i + 1, k, config, dry_run, Some(BootstrapChannel::Weixin));
    } else if a[i] == "--feishu"@ {
        lemma_bootstrap_config_found(a, i + 1, k, config, dry_run, Some(BootstrapChannel::Feishu));
    } else if a[i] == "--config"@ {
        assert(i + 1 != k);
        if i + 1 < a.len() {
            lemma_bootstrap_config_found(a, i + 2, k, Some(a[i + 1]), dry_run, channel);
        }
    }
}

/// `wecode bootstrap` uses the configuration file it is given: when the
/// arguments hold `--config <path>` (with no later `--config`, and not
/// itself the path of an earlier `--config`), a successful parse carries
/// that path.
pub proof fn law_bootstrap_uses_given_config(args: Seq<Seq<char>>, k: int)
    requires
        args.len() >= 2,
        args[1] == "bootstrap"@,
        2 <= k,
        k + 1 < args.len(),
        args[k] == "--config"@,
        args[k - 1] != "--config"@,
        forall|j: int| k + 2 <= j < args.len() ==> args[j] != "--config"@,
    ensures
        bootstrap_config(cli_command(args)) matches Some(c) ==> c == Some(args[k + 1]),
{
    reveal_strlit("bootstrap");
    reveal_strlit("help");
    reveal_strlit("--help");
    reveal_strlit("-h");
    reveal_strlit("doctor");
    reveal_strlit("sample-config");
    reveal_strlit("install-weixin");
    reveal_strlit("patch-openclaw-runtime");
    reveal_strlit("config");
    reveal_strlit("runtime-status");
    let a = args.drop_first();
    let c = a[0];
    assert(c == "bootstrap"@);
    assert(c.len() == 9 && c[0] == 'b');
    assert(c != "help"@ && c != "--help"@ && c != "-h"@ && c != "doctor"@);
    assert(c != "sample-config"@ && c != "install-weixin"@ && c != "patch-openclaw-runtime"@);
    assert(c != "config"@ && c != "runtime-status"@);
    let tail = a.drop_first();
    assert(cli_command(args) == bootstrap_scan(tail, 0, None, false, None));
    assert forall|j: int| (k - 2) + 2 <= j < tail.len() implies tail[j] != "--config"@ by {
        assert(tail[j] == args[j + 2]);
    }
    assert(tail[k - 2] == args[k]);
    assert(tail[k - 1] == args[k + 1]);
    if k - 2 > 0 {
        assert(tail[k - 3] == args[k - 1]);
    }
    lemma_bootstrap_config_found(tail, 0, k - 2, None, false, None);
}

/// The configuration file that a successful parse carries, for the
/// commands that take `--config`.
pub open spec fn parsed_config(r: Result<CliView, Seq<char>>) -> Option<Option<Seq<char>>> {
    match r {
        Ok(CliView::RuntimeStatus(c)) => Some(c),
        Ok(CliView::ConfigureCodex(c)) => Some(c),
        Ok(CliView::Codex(c, _)) => Some(c),
        Ok(CliView::Render(c, _)) => Some(c),
        Ok(CliView::Bootstrap(c, _, _)) => Some(c),
        Ok(CliView::CodexBackend(b)) => Some(b.config_path),
        _ => None,
    }
}

proof fn lemma_optional_config_kept(
    a: Seq<Seq<char>>,
    i: int,
    config: Option<Seq<char>>,
    rest: Seq<Seq<char>>,
)
    requires
        0 <= i,
        forall|j: int| i <= j < a.len() ==> a[j] != "--config"@,
    ensures
        optional_config(a, i, config, rest) matches Ok((c, _)) ==> c == config,
    decreases a.len() - i,
{
    if i < a.len() {
        lemma_optional_config_kept(a, i + 1, config, rest.push(a[i]));
    }
}

proof fn lemma_optional_config_found(
    a: Seq<Seq<char>>,
    i: int,
    k: int,
    config: Option<Seq<char>>,
    rest: Seq<Seq<char>>,
)
    requires
        0 <= i <= k,
        k + 1 < a.len(),
        a[k] == "--config"@,
        k == 0 || a[k - 1] != "--config"@,
        forall|j: int| k + 2 <= j < a.len() ==> a[j] != "--config"@,
    ensures
        optional_config(a, i, config, rest) matches Ok((c, _)) ==> c == Some(a[k + 1]),
    decreases k - i,
{
    if i == k {
        lemma_optional_config_kept(a, k + 2, Some(a[k + 1]), rest);
    } else if a[i] == "--config"@ {
        assert(i + 1 != k);
        lemma_optional_config_found(a, i + 2, k, Some(a[i + 1]), rest);
    } else {
        lemma_optional_config_found(a, i + 1, k, config, rest.push(a[i]));
    }
}

/// `wecode runtime-status`, `configure-codex`, `codex` (or `ask`) and
/// `render` use the configuration file they are given: when the arguments
/// hold `--config <path>` (with no later `--config`, and not itself the
/// path of an earlier `--config`), a successful parse carries that path.
pub proof fn law_config_option_is_used(args: Seq<Seq<char>>, k: int)
    requires
        args.len() >= 2,
        args[1] == "runtime-status"@ || args[1] == "configure-codex"@ || args[1] == "codex"@
            || args[1] == "ask"@ || args[1] == "render"@,
        2 <= k,
        k + 1 < args.len(),
        args[k] == "--config"@,
        args[k - 1] != "--config"@,
        forall|j: int| k + 2 <= j < args.len() ==> args[j] != "--config"@,
    ensures
        parsed_config(cli_command(args)) matches Some(c) ==> c == Some(args[k + 1]),
{
    reveal_strlit("help");
    reveal_strlit("--help");
    reveal_strlit("-h");
    reveal_strlit("doctor");
    reveal_strlit("sample-config");
    reveal_strlit("install-weixin");
    reveal_strlit("patch-openclaw-runtime");
    reveal_strlit("config");
    reveal_strlit("runtime-status");
    reveal_strlit("bootstrap");
    reveal_strlit("configure-codex");
    reveal_strlit("codex");
    reveal_strlit("ask");
    reveal_strlit("codex-backend");
    reveal_strlit("render");
    let a = args.drop_first();
    let c = a[0];
    let tail = a.drop_first();
    assert forall|j: int| (k - 2) + 2 <= j < tail.len() implies tail[j] != "--config"@ by {
        assert(tail[j] == args[j + 2]);
    }
    assert(tail[k - 2] == args[k]);
    assert(tail[k - 1] == args[k + 1]);
    if k - 2 > 0 {
        assert(tail[k - 3] == args[k - 1]);
    }
    lemma_optional_config_found(tail, 0, k - 2, None, Seq::empty());
    if c == "runtime-status"@ {
        assert(c.len() == 14 && c[0] == 'r');
        assert(c != "help"@ && c != "--help"@ && c != "-h"@ && c != "doctor"@);
        assert(c != "sample-config"@ && c != "install-weixin"@ && c != "patch-openclaw-runtime"@);
        assert(c != "config"@);
    } else if c == "configure-codex"@ {
        assert(c.len() == 15 && c[0] == 'c' && c[6] == 'u');
        assert(c != "help"@ && c != "--help"@ && c != "-h"@ && c != "doctor"@);
        assert(c != "sample-config"@ && c != "install-weixin"@ && c != "patch-openclaw-runtime"@);
        assert(c != "config"@ && c != "runtime-status"@ && c != "bootstrap"@);
    } else if c == "codex"@ || c == "ask"@ {
        assert(c.len() == 5 || c.len() == 3);
        assert(c != "help"@ && c != "--help"@ && c != "-h"@ && c != "doctor"@);
        assert(c != "sample-config"@ && c != "install-weixin"@ && c != "patch-openclaw-runtime"@);
        assert(c != "config"@ && c != "runtime-status"@ && c != "bootstrap"@);
        assert(c != "configure-codex"@);
    } else {
        assert(c == "render"@);
        assert(c.len() == 6 && c[0] == 'r' && c[1] == 'e');
        assert(c != "help"@ && c != "--help"@ && c != "-h"@ && c != "doctor"@);
        assert(c != "sample-config"@ && c != "install-weixin"@ && c != "patch-openclaw-runtime"@);
        assert(c != "config"@ && c != "runtime-status"@ && c != "bootstrap"@);
        assert(c != "configure-codex"@ && c != "codex"@ && c != "ask"@ && c != "codex-backend"@);
    }
}

/// The options of `codex-backend` that take a value.
pub open spec fn backend_value_flag(w: Seq<char>) -> bool {
    w == "--config"@ || w == "--model"@ || w == "--cwd"@ || w == "--resume"@
}

proof fn lemma_backend_config_kept(
    a: Seq<Seq<char>>,
    i: int,
    st: BackendArgs,
    words: Seq<Seq<char>>,
)
    requires
        0 <= i,
        forall|j: int| i <= j < a.len() ==> a[j] != "--config"@,
    ensures
        parsed_config(backend_scan(a, i, st, words)) matches Some(c) ==> c == st.config_path,
    decreases a.len() - i,
{
    if i < a.len() {
        if a[i] == "--jsonl"@ {
            lemma_backend_config_kept(a, i + 1, BackendArgs { jsonl: true, ..st }, words);
        } else if a[i] == "--model"@ {
            if i + 1 < a.len() {
                lemma_backend_config_kept(a, i + 2, BackendArgs { model: Some(a[i + 1]), ..st }, words);
            }
        } else if a[i] == "--cwd"@ {
            if i + 1 < a.len() {
                lemma_backend_config_kept(a, i + 2, BackendArgs { cwd: Some(a[i + 1]), ..st }, words);
            }
        } else if a[i] == "--resume"@ {
            if i + 1 < a.len() {
                lemma_backend_config_kept(
                    a,
                    i + 2,
                    BackendArgs { resume_session_id: Some(a[i + 1]), ..st },
                    words,
                );
            }
        } else if a[i] == "--"@ {
            lemma_backend_config_kept(a, a.len() as int, st, words + a.skip(i + 1));
        } else {
            lemma_backend_config_kept(a, i + 1, st, words.push(a[i]));
        }
    }
}

proof fn lemma_backend_config_found(
    a: Seq<Seq<char>>,
    i: int,
    k: int,
    st: BackendArgs,
    words: Seq<Seq<char>>,
)
    requires
        0 <= i <= k,
        k + 1 < a.len(),
        a[k] == "--config"@,
        k == 0 || !backend_value_flag(a[k - 1]),
        forall|j: int| i <= j < k ==> a[j] != "--"@,
        forall|j: int| k + 2 <= j < a.len() ==> a[j] != "--config"@,
    ensures
        parsed_config(backend_scan(a, i, st, words)) matches Some(c) ==> c == Some(a[k + 1]),
    decreases k - i,
{
    reveal_strlit("--config");
    reveal_strlit("--jsonl");
    reveal_strlit("--model");
    reveal_strlit("--cwd");
    reveal_strlit("--resume");
    reveal_strlit("--");
    assert("--config"@.len() == 8 && "--jsonl"@[2] == 'j' && "--model"@[2] == 'm');
    assert("--cwd"@.len() == 5 && "--resume"@[2] == 'r' && "--"@.len() == 2);
    if i == k {
        lemma_backend_config_kept(a, k + 2, BackendArgs { config_path: Some(a[k + 1]), ..st }, words);
    } else if a[i] == "--config"@ {
        assert(i + 1 != k);
        lemma_backend_config_found(a, i + 2, k, BackendArgs { config_path: Some(a[i + 1]), ..st }, words);
    } else if a[i] == "--jsonl"@ {
        lemma_backend_config_found(a, i + 1, k, BackendArgs { jsonl: true, ..st }, words);
    } else if a[i] == "--model"@ {
        assert(i + 1 != k);
        lemma_backend_config_found(a, i + 2, k, BackendArgs { model: Some(a[i + 1]), ..st }, words);
    } else if a[i] == "--cwd"@ {
        assert(i + 1 != k);
        lemma_backend_config_found(a, i + 2, k, BackendArgs { cwd: Some(a[i + 1]), ..st }, words);
    } else if a[i] == "--resume"@ {
        assert(i + 1 != k);
        lemma_backend_config_found(
            a,
            i + 2,
            k,
            BackendArgs { resume_session_id: Some(a[i + 1]), ..st },
            words,
        );
    } else {
        assert(a[i] != "--"@);
        lemma_backend_config_found(a, i + 1, k, st, words.push(a[i]));
    }
}

/// `wecode codex-backend` uses the configuration file it is given: when
/// `--config <path>` stands among its options (before any `--`, not as the
/// value of another option, and with no later `--config`), a successful
/// parse carries that path.
pub proof fn law_backend_uses_given_config(args: Seq<Seq<char>>, k: int)
    requires
        args.len() >= 2,
        args[1] == "codex-backend"@,
        2 <= k,
        k + 1 < args.len(),
        args[k] == "--config"@,
        !backend_value_flag(args[k - 1]),
        forall|j: int| 2 <= j < k ==> args[j] != "--"@,
        forall|j: int| k + 2 <= j < args.len() ==> args[j] != "--config"@,
    ensures
        parsed_config(cli_command(args)) matches Some(c) ==> c == Some(args[k + 1]),
{
    reveal_strlit("help");
    reveal_strlit("--help");
    reveal_strlit("-h");
    reveal_strlit("doctor");
    reveal_strlit("sample-config");
    reveal_strlit("install-weixin");
    reveal_strlit("patch-openclaw-runtime");
    reveal_strlit("config");
    reveal_strlit("runtime-status");
    reveal_strlit("bootstrap");
    reveal_strlit("configure-codex");
    reveal_strlit("codex");
    reveal_strlit("ask");
    reveal_strlit("codex-backend");
    let a = args.drop_first();
    let c = a[0];
    let tail = a.drop_first();
    assert(c == "codex-backend"@);
    assert(c.len() == 13 && c[0] == 'c' && c[1] == 'o' && c[2] == 'd');
    assert(c != "help"@ && c != "--help"@ && c != "-h"@ && c != "doctor"@);
    assert(c != "sample-config"@ && c != "install-weixin"@ && c != "patch-openclaw-runtime"@);
    assert(c != "config"@ && c != "runtime-status"@ && c != "bootstrap"@);
    assert(c != "configure-codex"@ && c != "codex"@ && c != "ask"@);
    assert(cli_command(args) == backend_scan(tail, 0, no_backend_args(), Seq::empty()));
    assert forall|j: int| (k - 2) + 2 <= j < tail.len() implies tail[j] != "--config"@ by {
        assert(tail[j] == args[j + 2]);
    }
    assert forall|j: int| 0 <= j < k - 2 implies tail[j] != "--"@ by {
        assert(tail[j] == args[j + 2]);
    }
    assert(tail[k - 2] == args[k]);
    assert(tail[k - 1] == args[k + 1]);
    if k - 2 > 0 {
        assert(tail[k - 3] == args[k - 1]);
    }
    lemma_backend_config_found(tail, 0, k - 2, no_backend_args(), Seq::empty());
}

} // verus!
