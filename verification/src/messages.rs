//! The replies that wecode writes into the chat itself: help, status and
//! the short messages of the local commands.
use crate::commands::BackendInput;
use crate::config::{codex_model_from_openclaw_model, codex_model_of, CodexTransport, CustomCommand, WecodeConfig};
use crate::diagnostics::{decimal_digits, decimal_string};
use crate::json::{field_views, jget, jget_opt, json_get, json_get_opt, json_str_field, jstr, jv_object, jv_str, json_parse, parse_json, Json, JsonValue};
use crate::text::{
    chars_to_string, concat2, contains, is_ws, join, join_chars, lit_then, opt_string, str_chars,
    strings_view, trim, trim_end, trim_end_slice, trim_slice, with_lit, words_view,
};
use vstd::prelude::*;

verus! {

fn push_line(lines: &mut Vec<String>, line: String)
    ensures
        strings_view(final(lines)@) == strings_view(old(lines)@).push(line@),
{
    let ghost before = strings_view(lines@);
    lines.push(line);
    assert(strings_view(lines@) =~= before.push(line@));
}

fn lines_text(lines: &Vec<String>) -> (r: String)
    ensures
        r@ == join(strings_view(lines@), "\n"@),
{
    let mut words: Vec<Vec<char>> = Vec::new();
    let mut k: usize = 0;
    while k < lines.len()
        invariant
            k <= lines.len(),
            words_view(words@) == strings_view(lines@).take(k as int),
        decreases lines.len() - k,
    {
        let ghost before = words_view(words@);
        words.push(str_chars(lines[k].as_str()));
        assert(words_view(words@) =~= before.push(strings_view(lines@)[k as int]));
        assert(strings_view(lines@).take(k + 1) =~= strings_view(lines@).take(k as int).push(
            strings_view(lines@)[k as int],
        ));
        k += 1;
    }
    assert(strings_view(lines@).take(lines.len() as int) =~= strings_view(lines@));
    chars_to_string(join_chars(words.as_slice(), "\n").as_slice())
}

/// How a custom command is written in the help: its prefix, with `<text>`
/// when the prefix ends in whitespace.
pub open spec fn command_usage(prefix: Seq<char>) -> Seq<char> {
    if prefix.len() > 0 && is_ws(prefix.last()) {
        trim_end(prefix) + " <text>"@
    } else {
        trim_end(prefix)
    }
}

pub fn custom_command_usage(prefix: &str) -> (r: String)
    ensures
        r@ == command_usage(prefix@),
{
    let p = str_chars(prefix);
    let t = trim_end_slice(p.as_slice());
    if p.len() > 0 && crate::text::char_is_whitespace(p[p.len() - 1]) {
        chars_to_string(with_lit(t, " <text>").as_slice())
    } else {
        chars_to_string(t)
    }
}

/// The built-in part of the help.
pub open spec fn help_lines() -> Seq<Seq<char>> {
    seq![
        "# Wecode 帮助"@,
        ""@,
        "`:help` 和 `:commands` 由 Wecode 本地直接返回，不会请求 Codex。"@,
        ""@,
        "## 普通消息"@,
        ""@,
        "非命令消息会发送给 Codex，并在当前项目目录执行。当前聊天如果已绑定 session，Wecode 会自动续接该 Codex session。"@,
        ""@,
        "## 本地命令（不调用 Codex）"@,
        ""@,
        "- `:help` / `:commands` - 显示本帮助，不请求 Codex"@,
        "- `:pwd` - 显示当前 Codex 项目目录"@,
        "- `:ls [path]` - 列出目录，返回绝对路径"@,
        "- `:cat <path>` - 读取项目内文本文件"@,
        "- `:cd <path>` - 切换 Codex 项目目录，下一次任务会新开 session"@,
        "- `:shell <command>` - 在当前 Codex 项目目录执行 shell 命令"@,
        "- `:diff` - 显示当前项目 git diff"@,
        "- `:status` - 显示后端、项目、session、审批、模型和 git 状态"@,
        "- `:stop` - 停止当前正在运行的 Codex 任务"@,
        "- `:yolo [true|false]` - 切换当前项目的全自动模式（不再请求审批）"@,
        ""@,
        "## Codex 命令（会调用 Codex）"@,
        ""@,
        "- `:init [notes]` - 转成 `/init ...` 后发送给 Codex 原生命令"@,
        "- `:review [instructions]` - 对未提交改动执行 Codex review"@,
        "- `:new [prompt]` - 转成 `/new ...` 后发送给 Codex 原生命令，不保证切换 Wecode 绑定的 session"@,
        "- `:compact [notes]` - 转成 `/compact ...` 后发送给 Codex 原生命令"@,
        "- `:plan [task]` - 转成 `/plan ...` 后发送给 Codex 原生命令"@,
        "- `:goal [objective]` - 转成 `/goal ...` 后发送给 Codex 原生命令"@,
        "- `:agent [task]` - 转成 `/agent ...` 后发送给 Codex 原生命令"@,
        "- `:side [question]` - 转成 `/side ...` 后发送给 Codex 原生命令"@,
        "- `:report [notes]` - 查询任务进展"@,
        ""@,
        "## Session 命令"@,
        ""@,
        "- `:resume [session_id]` - 绑定到最近或指定的 Codex session，不请求 Codex"@,
        "- `:fresh [prompt]` - 硬新开 Codex thread；带 prompt 时立即执行，不带 prompt 时作用于下一条请求"@,
        ""@,
        "## 审批命令"@,
        ""@,
        "- `yes` / `:yes [id]` - 批准并执行待确认命令"@,
        "- `no` / `:no [id]` - 拒绝待确认命令"@,
        ""@,
        "## 模型命令"@,
        ""@,
        "- `:model` - 显示当前项目使用的 Codex 模型"@,
        "- `:models` - 列出配置中的 Codex 模型候选"@,
        "- `:model <model>` - 设置当前项目后续使用的 Codex 模型"@,
        "- `:model default` - 清除项目模型覆盖"@,
    ]
}

pub open spec fn command_help_line(c: CustomCommand) -> Seq<char> {
    "- `"@ + command_usage(c.prefix@) + "` - "@ + c.name@ + (if c.require_confirm {
        "（需要审批）"@
    } else {
        Seq::empty()
    })
}

/// The help, with a section for the custom commands when there are any.
pub open spec fn help_text(commands: Seq<CustomCommand>) -> Seq<char> {
    join(
        help_lines() + if commands.len() > 0 {
            seq![Seq::empty(), "## 自定义命令"@, Seq::empty()] + commands.map_values(
                |c: CustomCommand| command_help_line(c),
            )
        } else {
            Seq::empty()
        },
        "\n"@,
    )
}

/// The reply to `:help` and `:commands`.
pub fn weixin_help_message(config: &WecodeConfig) -> (r: String)
    ensures
        r@ == help_text(config.commands@),
{
    let mut lines: Vec<String> = Vec::new();
    push_line(&mut lines, "# Wecode 帮助".to_owned());
    push_line(&mut lines, "".to_owned());
    push_line(&mut lines, "`:help` 和 `:commands` 由 Wecode 本地直接返回，不会请求 Codex。".to_owned());
    push_line(&mut lines, "".to_owned());
    push_line(&mut lines, "## 普通消息".to_owned());
    push_line(&mut lines, "".to_owned());
    push_line(&mut lines, "非命令消息会发送给 Codex，并在当前项目目录执行。当前聊天如果已绑定 session，Wecode 会自动续接该 Codex session。".to_owned());
    push_line(&mut lines, "".to_owned());
    push_line(&mut lines, "## 本地命令（不调用 Codex）".to_owned());
    push_line(&mut lines, "".to_owned());
    push_line(&mut lines, "- `:help` / `:commands` - 显示本帮助，不请求 Codex".to_owned());
    push_line(&mut lines, "- `:pwd` - 显示当前 Codex 项目目录".to_owned());
    push_line(&mut lines, "- `:ls [path]` - 列出目录，返回绝对路径".to_owned());
    push_line(&mut lines, "- `:cat <path>` - 读取项目内文本文件".to_owned());
    push_line(&mut lines, "- `:cd <path>` - 切换 Codex 项目目录，下一次任务会新开 session".to_owned());
    push_line(&mut lines, "- `:shell <command>` - 在当前 Codex 项目目录执行 shell 命令".to_owned());
    push_line(&mut lines, "- `:diff` - 显示当前项目 git diff".to_owned());
    push_line(&mut lines, "- `:status` - 显示后端、项目、session、审批、模型和 git 状态".to_owned());
    push_line(&mut lines, "- `:stop` - 停止当前正在运行的 Codex 任务".to_owned());
    push_line(&mut lines, "- `:yolo [true|false]` - 切换当前项目的全自动模式（不再请求审批）".to_owned());
    push_line(&mut lines, "".to_owned());
    push_line(&mut lines, "## Codex 命令（会调用 Codex）".to_owned());
    push_line(&mut lines, "".to_owned());
    push_line(&mut lines, "- `:init [notes]` - 转成 `/init ...` 后发送给 Codex 原生命令".to_owned());
    push_line(&mut lines, "- `:review [instructions]` - 对未提交改动执行 Codex review".to_owned());
    push_line(&mut lines, "- `:new [prompt]` - 转成 `/new ...` 后发送给 Codex 原生命令，不保证切换 Wecode 绑定的 session".to_owned());
    push_line(&mut lines, "- `:compact [notes]` - 转成 `/compact ...` 后发送给 Codex 原生命令".to_owned());
    push_line(&mut lines, "- `:plan [task]` - 转成 `/plan ...` 后发送给 Codex 原生命令".to_owned());
    push_line(&mut lines, "- `:goal [objective]` - 转成 `/goal ...` 后发送给 Codex 原生命令".to_owned());
    push_line(&mut lines, "- `:agent [task]` - 转成 `/agent ...` 后发送给 Codex 原生命令".to_owned());
    push_line(&mut lines, "- `:side [question]` - 转成 `/side ...` 后发送给 Codex 原生命令".to_owned());
    push_line(&mut lines, "- `:report [notes]` - 查询任务进展".to_owned());
    push_line(&mut lines, "".to_owned());
    push_line(&mut lines, "## Session 命令".to_owned());
    push_line(&mut lines, "".to_owned());
    push_line(&mut lines, "- `:resume [session_id]` - 绑定到最近或指定的 Codex session，不请求 Codex".to_owned());
    push_line(&mut lines, "- `:fresh [prompt]` - 硬新开 Codex thread；带 prompt 时立即执行，不带 prompt 时作用于下一条请求".to_owned());
    push_line(&mut lines, "".to_owned());
    push_line(&mut lines, "## 审批命令".to_owned());
    push_line(&mut lines, "".to_owned());
    push_line(&mut lines, "- `yes` / `:yes [id]` - 批准并执行待确认命令".to_owned());
    push_line(&mut lines, "- `no` / `:no [id]` - 拒绝待确认命令".to_owned());
    push_line(&mut lines, "".to_owned());
    push_line(&mut lines, "## 模型命令".to_owned());
    push_line(&mut lines, "".to_owned());
    push_line(&mut lines, "- `:model` - 显示当前项目使用的 Codex 模型".to_owned());
    push_line(&mut lines, "- `:models` - 列出配置中的 Codex 模型候选".to_owned());
    push_line(&mut lines, "- `:model <model>` - 设置当前项目后续使用的 Codex 模型".to_owned());
    push_line(&mut lines, "- `:model default` - 清除项目模型覆盖".to_owned());
    let ghost head = strings_view(lines@);
    assert(head =~= help_lines());
    if config.commands.len() > 0 {
        push_line(&mut lines, String::new());
        push_line(&mut lines, "## 自定义命令".to_owned());
        push_line(&mut lines, String::new());
        let ghost mid = strings_view(lines@);
        let ghost cl = config.commands@.map_values(|c: CustomCommand| command_help_line(c));
        let mut i: usize = 0;
        while i < config.commands.len()
            invariant
                i <= config.commands.len(),
                cl == config.commands@.map_values(|c: CustomCommand| command_help_line(c)),
                strings_view(lines@) == mid + cl.take(i as int),
            decreases config.commands.len() - i,
        {
            let c = &config.commands[i];
            let usage = custom_command_usage(c.prefix.as_str());
            let u = str_chars(usage.as_str());
            let name = str_chars(c.name.as_str());
            let a = with_lit(lit_then("- `", u.as_slice()).as_slice(), "` - ");
            let b = concat2(a.as_slice(), name.as_slice());
            let line = if c.require_confirm {
                with_lit(b.as_slice(), "（需要审批）")
            } else {
                b
            };
            let ghost before = strings_view(lines@);
            push_line(&mut lines, chars_to_string(line.as_slice()));
            proof {
                assert(line@ == command_help_line(config.commands@[i as int]));
                assert(cl.take(i + 1) =~= cl.take(i as int).push(cl[i as int]));
            }
            i += 1;
        }
        proof {
            assert(cl.take(config.commands.len() as int) =~= cl);
            assert(strings_view(lines@) =~= help_lines() + (seq![
                Seq::<char>::empty(),
                "## 自定义命令"@,
                Seq::<char>::empty(),
            ] + cl));
        }
    } else {
        assert(help_lines() + Seq::<Seq<char>>::empty() =~= help_lines());
    }
    lines_text(&lines)
}

// ---------------------------------------------------------------------------
// Local replies
// ---------------------------------------------------------------------------

/// The length of the longest run of backticks in `s[..n]`, and of the run
/// that ends at `n`.
pub open spec fn backtick_runs(s: Seq<char>, n: int) -> (nat, nat)
    decreases n,
{
    if n <= 0 || n > s.len() {
        (0, 0)
    } else {
        let prev = backtick_runs(s, n - 1);
        if s[n - 1] == '`' {
            let cur = prev.1 + 1;
            (if cur > prev.0 {
                cur
            } else {
                prev.0
            }, cur)
        } else {
            (prev.0, 0)
        }
    }
}

pub open spec fn longest_run(s: Seq<char>) -> nat {
    backtick_runs(s, s.len() as int).0
}

pub fn longest_backtick_run(input: &str) -> (r: usize)
    ensures
        r == longest_run(input@),
{
    let s = str_chars(input);
    let mut longest: usize = 0;
    let mut current: usize = 0;
    let mut i: usize = 0;
    while i < s.len()
        invariant
            i <= s.len(),
            current <= i,
            longest <= i,
            (longest as nat, current as nat) == backtick_runs(s@, i as int),
        decreases s.len() - i,
    {
        if s[i] == '`' {
            current += 1;
            if current > longest {
                longest = current;
            }
        } else {
            current = 0;
        }
        i += 1;
    }
    longest
}

pub open spec fn fence_len(message: Seq<char>) -> nat {
    let l = longest_run(message);
    let f: nat = if l + 1 > usize::MAX {
        usize::MAX as nat
    } else {
        (l + 1) as nat
    };
    if f < 3 {
        3
    } else {
        f
    }
}

/// `message` in a fenced block that no backtick run inside it can close.
pub open spec fn code_block(message: Seq<char>, language: Seq<char>) -> Seq<char> {
    let fence = Seq::new(fence_len(message), |i: int| '`');
    fence + language + "\n"@ + message + "\n"@ + fence
}

pub fn markdown_code_block(message: &str, language: &str) -> (r: String)
    ensures
        r@ == code_block(message@, language@),
{
    let run = longest_backtick_run(message);
    let n = if run == usize::MAX {
        run
    } else if run + 1 < 3 {
        3
    } else {
        run + 1
    };
    let mut fence: Vec<char> = Vec::new();
    let mut i: usize = 0;
    while i < n
        invariant
            i <= n,
            fence@ == Seq::new(i as nat, |k: int| '`'),
        decreases n - i,
    {
        fence.push('`');
        assert(fence@ =~= Seq::new((i + 1) as nat, |k: int| '`'));
        i += 1;
    }
    let m = str_chars(message);
    let l = str_chars(language);
    let a = with_lit(concat2(fence.as_slice(), l.as_slice()).as_slice(), "\n");
    let b = with_lit(concat2(a.as_slice(), m.as_slice()).as_slice(), "\n");
    let r = concat2(b.as_slice(), fence.as_slice());
    assert(fence@ == Seq::new(fence_len(message@), |k: int| '`'));
    assert(r@ =~= code_block(message@, language@));
    chars_to_string(r.as_slice())
}

/// At most `max` characters, with a marker when something was cut.
pub open spec fn weixin_truncated(s: Seq<char>, max: nat) -> Seq<char> {
    if s.len() > max {
        s.take(max as int) + "\n... truncated ..."@
    } else {
        s
    }
}

pub fn truncate_for_weixin(input: &str, max_chars: usize) -> (r: String)
    ensures
        r@ == weixin_truncated(input@, max_chars as nat),
{
    let c = str_chars(input);
    if c.len() > max_chars {
        let head = &c.as_slice()[0..max_chars];
        assert(head@ =~= c@.take(max_chars as int));
        chars_to_string(with_lit(head, "\n... truncated ...").as_slice())
    } else {
        chars_to_string(c.as_slice())
    }
}

pub fn codex_transport_label(transport: CodexTransport) -> (r: &'static str)
    ensures
        r@ == match transport {
            CodexTransport::Exec => "exec"@,
            CodexTransport::Remote => "remote"@,
            CodexTransport::RemoteStrict => "remote-strict"@,
        },
{
    match transport {
        CodexTransport::Exec => "exec",
        CodexTransport::Remote => "remote",
        CodexTransport::RemoteStrict => "remote-strict",
    }
}

/// The name under which a prepared input is logged.
pub open spec fn input_kind(input: BackendInput) -> Seq<char> {
    match input {
        BackendInput::Prompt(_) => "prompt"@,
        BackendInput::Review { .. } => "review"@,
        BackendInput::Help => "help"@,
        BackendInput::Status => "status"@,
        BackendInput::Diff => "diff"@,
        BackendInput::Pwd => "pwd"@,
        BackendInput::Ls { .. } => "ls"@,
        BackendInput::Cat { .. } => "cat"@,
        BackendInput::Cd { .. } => "cd"@,
        BackendInput::Shell { .. } => "shell"@,
        BackendInput::ModelShow => "model_show"@,
        BackendInput::ModelsList => "models_list"@,
        BackendInput::ModelSet { .. } => "model_set"@,
        BackendInput::Resume { .. } => "resume"@,
        BackendInput::Fresh { .. } => "fresh"@,
        BackendInput::Approve { .. } => "approve"@,
        BackendInput::Deny { .. } => "deny"@,
        BackendInput::ApprovalRequired { .. } => "approval_required"@,
        BackendInput::Stop => "stop"@,
        BackendInput::Yolo { .. } => "yolo"@,
        BackendInput::UnknownCommand { .. } => "unknown_command"@,
        BackendInput::AwaitingApproval => "awaiting_approval"@,
    }
}

pub fn backend_input_kind(input: &BackendInput) -> (r: &'static str)
    ensures
        r@ == input_kind(*input),
{
    match input {
        BackendInput::Prompt(_) => "prompt",
        BackendInput::Review { .. } => "review",
        BackendInput::Help => "help",
        BackendInput::Status => "status",
        BackendInput::Diff => "diff",
        BackendInput::Pwd => "pwd",
        BackendInput::Ls { .. } => "ls",
        BackendInput::Cat { .. } => "cat",
        BackendInput::Cd { .. } => "cd",
        BackendInput::Shell { .. } => "shell",
        BackendInput::ModelShow => "model_show",
        BackendInput::ModelsList => "models_list",
        BackendInput::ModelSet { .. } => "model_set",
        BackendInput::Resume { .. } => "resume",
        BackendInput::Fresh { .. } => "fresh",
        BackendInput::Approve { .. } => "approve",
        BackendInput::Deny { .. } => "deny",
        BackendInput::ApprovalRequired { .. } => "approval_required",
        BackendInput::Stop => "stop",
        BackendInput::Yolo { .. } => "yolo",
        BackendInput::UnknownCommand { .. } => "unknown_command",
        BackendInput::AwaitingApproval => "awaiting_approval",
    }
}

// ---------------------------------------------------------------------------
// Models
// ---------------------------------------------------------------------------

/// Adds `m` unless it is already listed.
pub open spec fn add_model(ms: Seq<Seq<char>>, m: Seq<char>) -> Seq<Seq<char>> {
    if ms.contains(m) {
        ms
    } else {
        ms.push(m)
    }
}

/// The Codex models offered by `:models`: each configured model (the
/// backend default shown as `default`), then the configured override.
pub open spec fn models_of(configured: Seq<Seq<char>>) -> Seq<Seq<char>>
    decreases configured.len(),
{
    if configured.len() == 0 {
        Seq::empty()
    } else {
        let prev = models_of(configured.drop_last());
        match codex_model_of(configured.last()) {
            Some(m) => add_model(prev, m),
            None => add_model(prev, "default"@),
        }
    }
}

pub open spec fn configured_models(c: WecodeConfig) -> Seq<Seq<char>> {
    let base = models_of(strings_view(c.codex.models@));
    match c.codex.model {
        Some(m) => match codex_model_of(m@) {
            Some(x) => add_model(base, x),
            None => base,
        },
        None => base,
    }
}

fn contains_string(ms: &Vec<String>, m: &String) -> (r: bool)
    ensures
        r == strings_view(ms@).contains(m@),
{
    let mut i: usize = 0;
    while i < ms.len()
        invariant
            i <= ms.len(),
            forall|k: int| 0 <= k < i ==> strings_view(ms@)[k] != m@,
        decreases ms.len() - i,
    {
        if ms[i] == *m {
            assert(strings_view(ms@)[i as int] == m@);
            return true;
        }
        i += 1;
    }
    false
}

fn add_model_exec(ms: &mut Vec<String>, m: String)
    ensures
        strings_view(final(ms)@) == add_model(strings_view(old(ms)@), m@),
{
    if !contains_string(ms, &m) {
        push_line(ms, m);
    }
}

pub fn configured_codex_models(config: &WecodeConfig) -> (r: Vec<String>)
    ensures
        strings_view(r@) == configured_models(*config),
{
    let ghost cv = strings_view(config.codex.models@);
    let mut models: Vec<String> = Vec::new();
    let mut i: usize = 0;
    assert(cv.take(0) =~= Seq::<Seq<char>>::empty());
    while i < config.codex.models.len()
        invariant
            i <= config.codex.models.len(),
            cv == strings_view(config.codex.models@),
            strings_view(models@) == models_of(cv.take(i as int)),
        decreases config.codex.models.len() - i,
    {
        assert(cv.take(i + 1).drop_last() =~= cv.take(i as int));
        assert(cv.take(i + 1).last() == config.codex.models@[i as int]@);
        match codex_model_from_openclaw_model(config.codex.models[i].as_str()) {
            Some(m) => add_model_exec(&mut models, m),
            None => add_model_exec(&mut models, "default".to_owned()),
        }
        i += 1;
    }
    assert(cv.take(config.codex.models.len() as int) =~= cv);
    match &config.codex.model {
        Some(m) => match codex_model_from_openclaw_model(m.as_str()) {
            Some(x) => add_model_exec(&mut models, x),
            None => {},
        },
        None => {},
    }
    models
}

pub open spec fn or_default_model(m: Option<Seq<char>>) -> Seq<char> {
    match m {
        Some(x) => x,
        None => "(Codex default)"@,
    }
}

/// The reply to `:model`.
pub fn model_status_message(model: Option<&str>, project: &str) -> (r: String)
    ensures
        r@ == "Current Codex model for this project: "@ + or_default_model(crate::backend::opt_str(model))
            + "\nProject: "@ + project@ + "\nSet it with `:model <model>`"@,
{
    let m = match model {
        Some(m) => str_chars(m),
        None => str_chars("(Codex default)"),
    };
    let p = str_chars(project);
    let a = with_lit(lit_then("Current Codex model for this project: ", m.as_slice()).as_slice(), "\nProject: ");
    let b = with_lit(concat2(a.as_slice(), p.as_slice()).as_slice(), "\nSet it with `:model <model>`");
    chars_to_string(b.as_slice())
}

/// The reply to `:models`.
pub fn models_list_message(current: Option<&str>, models: &[String]) -> (r: String)
    ensures
        r@ == join(
            seq!["Configured Codex models:"@, "current: "@ + or_default_model(crate::backend::opt_str(current))]
                + strings_view(models@).map_values(|m: Seq<char>| "- "@ + m) + seq![
                "Use `:model <model>` to set the model for the current project."@,
                "Use `:model default` to clear the project model override."@,
            ],
            "\n"@,
        ),
{
    let mut lines: Vec<String> = Vec::new();
    push_line(&mut lines, "Configured Codex models:".to_owned());
    let c = match current {
        Some(m) => str_chars(m),
        None => str_chars("(Codex default)"),
    };
    push_line(&mut lines, chars_to_string(lit_then("current: ", c.as_slice()).as_slice()));
    let ghost head = strings_view(lines@);
    let ghost ms = strings_view(models@).map_values(|m: Seq<char>| "- "@ + m);
    let mut i: usize = 0;
    while i < models.len()
        invariant
            i <= models.len(),
            ms == strings_view(models@).map_values(|m: Seq<char>| "- "@ + m),
            strings_view(lines@) == head + ms.take(i as int),
        decreases models.len() - i,
    {
        let m = str_chars(models[i].as_str());
        push_line(&mut lines, chars_to_string(lit_then("- ", m.as_slice()).as_slice()));
        assert(ms.take(i + 1) =~= ms.take(i as int).push(ms[i as int]));
        i += 1;
    }
    assert(ms.take(models.len() as int) =~= ms);
    push_line(&mut lines, "Use `:model <model>` to set the model for the current project.".to_owned());
    push_line(&mut lines, "Use `:model default` to clear the project model override.".to_owned());
    assert(strings_view(lines@) =~= seq!["Configured Codex models:"@, "current: "@ + or_default_model(crate::backend::opt_str(current))]
        + ms + seq![
        "Use `:model <model>` to set the model for the current project."@,
        "Use `:model default` to clear the project model override."@,
    ]);
    lines_text(&lines)
}

// ---------------------------------------------------------------------------
// Status, sessions, approvals, git and shell
// ---------------------------------------------------------------------------

pub open spec fn transport_label(t: CodexTransport) -> Seq<char> {
    match t {
        CodexTransport::Exec => "exec"@,
        CodexTransport::Remote => "remote"@,
        CodexTransport::RemoteStrict => "remote-strict"@,
    }
}

/// The reply to `:status`: a Markdown summary of the backend, the project,
/// the session, the approvals, the yolo switch, and git's short status in a
/// fenced block.
pub open spec fn status_text(
    c: WecodeConfig,
    cwd: Seq<char>,
    session: Option<Seq<char>>,
    pending: nat,
    backend_model: Option<Seq<char>>,
    yolo: bool,
    git: Seq<char>,
) -> Seq<char> {
    "# Wecode 状态\n\n- **Model**: "@ + c.openclaw.model@ + "\n- **Backend model**: "@
        + or_default_model(backend_model) + "\n- **Transport**: "@ + transport_label(
        c.codex.transport,
    ) + "\n- **Sandbox**: "@ + c.codex.sandbox@ + "\n- **CWD**: "@ + cwd
        + "\n- **Current session**: "@ + match session {
        Some(s) => s,
        None => "(none)"@,
    } + "\n- **Pending approvals**: "@ + decimal_digits(pending) + "\n- **Yolo**: "@ + (if yolo {
        "on"@
    } else {
        "off"@
    }) + "\n\n## Git\n\n"@ + code_block(git, "text"@)
}

/// The reply to `:status`, from the values the program gathered.
pub fn weixin_status_message(
    config: &WecodeConfig,
    target_cwd: &str,
    current_session: Option<&str>,
    pending_approvals: usize,
    backend_model: Option<&str>,
    yolo: bool,
    git: &str,
) -> (r: String)
    ensures
        r@ == status_text(
            *config,
            target_cwd@,
            crate::backend::opt_str(current_session),
            pending_approvals as nat,
            crate::backend::opt_str(backend_model),
            yolo,
            git@,
        ),
{
    let model = str_chars(config.openclaw.model.as_str());
    let backend = match backend_model {
        Some(m) => str_chars(m),
        None => str_chars("(Codex default)"),
    };
    let transport = str_chars(codex_transport_label(config.codex.transport));
    let sandbox = str_chars(config.codex.sandbox.as_str());
    let cwd = str_chars(target_cwd);
    let session = match current_session {
        Some(s) => str_chars(s),
        None => str_chars("(none)"),
    };
    let pending = decimal_string(pending_approvals as u64);
    let yolo_word = if yolo {
        str_chars("on")
    } else {
        str_chars("off")
    };
    let block = markdown_code_block(git, "text");
    let g = str_chars(block.as_str());
    let mut out = lit_then("# Wecode 状态\n\n- **Model**: ", model.as_slice());
    out = concat2(with_lit(out.as_slice(), "\n- **Backend model**: ").as_slice(), backend.as_slice());
    out = concat2(with_lit(out.as_slice(), "\n- **Transport**: ").as_slice(), transport.as_slice());
    out = concat2(with_lit(out.as_slice(), "\n- **Sandbox**: ").as_slice(), sandbox.as_slice());
    out = concat2(with_lit(out.as_slice(), "\n- **CWD**: ").as_slice(), cwd.as_slice());
    out = concat2(with_lit(out.as_slice(), "\n- **Current session**: ").as_slice(), session.as_slice());
    out = concat2(with_lit(out.as_slice(), "\n- **Pending approvals**: ").as_slice(), pending.as_slice());
    out = concat2(with_lit(out.as_slice(), "\n- **Yolo**: ").as_slice(), yolo_word.as_slice());
    out = concat2(with_lit(out.as_slice(), "\n\n## Git\n\n").as_slice(), g.as_slice());
    proof {
        reveal_strlit("on");
        reveal_strlit("off");
    }
    chars_to_string(out.as_slice())
}

/// The git part of `:status`: `clean`, or the short status cut at 4000
/// characters.
pub fn git_status_text(status: &str) -> (r: String)
    ensures
        r@ == (if trim(status@).len() == 0 {
            "clean"@
        } else {
            weixin_truncated(trim(status@), 4000)
        }),
{
    let c = str_chars(status);
    let t = trim_slice(c.as_slice());
    if t.len() == 0 {
        "clean".to_owned()
    } else {
        truncate_for_weixin(chars_to_string(t).as_str(), 4000)
    }
}

/// The reply after `:resume` binds a session.
pub fn resume_binding_message(id: &str, cwd: &str, title: &str) -> (r: String)
    ensures
        r@ == join(
            seq!["Resumed Codex session `"@ + id@ + "`."@] + (if cwd@.len() > 0 {
                seq!["CWD: "@ + cwd@]
            } else {
                Seq::empty()
            }) + (if title@.len() > 0 {
                seq!["Title: "@ + title@]
            } else {
                Seq::empty()
            }),
            "\n"@,
        ),
{
    let mut lines: Vec<String> = Vec::new();
    let i = str_chars(id);
    push_line(&mut lines, chars_to_string(with_lit(lit_then("Resumed Codex session `", i.as_slice()).as_slice(), "`.").as_slice()));
    let c = str_chars(cwd);
    if c.len() > 0 {
        push_line(&mut lines, chars_to_string(lit_then("CWD: ", c.as_slice()).as_slice()));
    }
    let t = str_chars(title);
    if t.len() > 0 {
        push_line(&mut lines, chars_to_string(lit_then("Title: ", t.as_slice()).as_slice()));
    }
    assert(strings_view(lines@) =~= seq!["Resumed Codex session `"@ + id@ + "`."@] + (if cwd@.len() > 0 {
        seq!["CWD: "@ + cwd@]
    } else {
        Seq::<Seq<char>>::empty()
    }) + (if title@.len() > 0 {
        seq!["Title: "@ + title@]
    } else {
        Seq::<Seq<char>>::empty()
    }));
    lines_text(&lines)
}

/// The reply when a custom command waits for approval.
pub fn approval_request_message(command_name: &str, approval_id: &str) -> (r: String)
    ensures
        r@ == "Command `"@ + command_name@ + "` requires approval.\nApprove: yes, :yes, or :approve "@
            + approval_id@ + "\nDeny: no, :no, or :deny "@ + approval_id@,
{
    let n = str_chars(command_name);
    let i = str_chars(approval_id);
    let mut out = lit_then("Command `", n.as_slice());
    out = concat2(
        with_lit(out.as_slice(), "` requires approval.\nApprove: yes, :yes, or :approve ").as_slice(),
        i.as_slice(),
    );
    out = concat2(with_lit(out.as_slice(), "\nDeny: no, :no, or :deny ").as_slice(), i.as_slice());
    chars_to_string(out.as_slice())
}

/// The reply to `:diff` from `git diff --stat` and `git diff`.
pub open spec fn diff_text(stat: Seq<char>, diff: Seq<char>) -> Seq<char> {
    if trim(stat).len() == 0 && trim(diff).len() == 0 {
        "No unstaged git diff for this project."@
    } else {
        (if trim(stat).len() > 0 {
            "Diff stat:\n"@ + trim(stat) + "\n\n"@
        } else {
            Seq::empty()
        }) + "Diff:\n"@ + weixin_truncated(trim(diff), 12000)
    }
}

pub fn diff_message(stat: &str, diff: &str) -> (r: String)
    ensures
        r@ == diff_text(stat@, diff@),
{
    let sc = str_chars(stat);
    let dc = str_chars(diff);
    let st = trim_slice(sc.as_slice());
    let dt = trim_slice(dc.as_slice());
    if st.len() == 0 && dt.len() == 0 {
        return "No unstaged git diff for this project.".to_owned();
    }
    let mut out: Vec<char> = Vec::new();
    if st.len() > 0 {
        out = with_lit(lit_then("Diff stat:\n", st).as_slice(), "\n\n");
    }
    let body = truncate_for_weixin(chars_to_string(dt).as_str(), 12000);
    let b = str_chars(body.as_str());
    let r = concat2(with_lit(out.as_slice(), "Diff:\n").as_slice(), b.as_slice());
    chars_to_string(r.as_slice())
}

/// The reply to `:shell` from the command's output.
pub open spec fn shell_text(stdout: Seq<char>, stderr: Seq<char>) -> Seq<char> {
    let out = trim_end(stdout);
    let err = trim_end(stderr);
    if out.len() == 0 && err.len() == 0 {
        "(no output)"@
    } else {
        let first = if out.len() > 0 {
            weixin_truncated(out, 12000)
        } else {
            Seq::empty()
        };
        if err.len() > 0 {
            first + (if first.len() > 0 {
                "\n"@
            } else {
                Seq::empty()
            }) + weixin_truncated(err, 8000)
        } else {
            first
        }
    }
}

pub fn format_shell_output(stdout: &str, stderr: &str) -> (r: String)
    ensures
        r@ == shell_text(stdout@, stderr@),
{
    let oc = str_chars(stdout);
    let ec = str_chars(stderr);
    let o = trim_end_slice(oc.as_slice());
    let e = trim_end_slice(ec.as_slice());
    if o.len() == 0 && e.len() == 0 {
        return "(no output)".to_owned();
    }
    let mut message: Vec<char> = Vec::new();
    if o.len() > 0 {
        let t = truncate_for_weixin(chars_to_string(o).as_str(), 12000);
        message = str_chars(t.as_str());
    }
    if e.len() > 0 {
        if message.len() > 0 {
            message = with_lit(message.as_slice(), "\n");
        }
        let t = truncate_for_weixin(chars_to_string(e).as_str(), 8000);
        let tc = str_chars(t.as_str());
        message = concat2(message.as_slice(), tc.as_slice());
    }
    chars_to_string(message.as_slice())
}

// ---------------------------------------------------------------------------
// JSON lines for OpenClaw
// ---------------------------------------------------------------------------

/// `{"thread_id": <id>}`: tells OpenClaw which Codex thread answered.
pub open spec fn thread_line(thread_id: Seq<char>) -> Json {
    Json::Object(seq![("thread_id"@, Json::Str(thread_id))])
}

/// `{"item": {"type": "message", "text": <text>}}`: an assistant message.
pub open spec fn assistant_line(text: Seq<char>) -> Json {
    Json::Object(
        seq![
            (
                "item"@,
                Json::Object(seq![("type"@, Json::Str("message"@)), ("text"@, Json::Str(text))]),
            ),
        ],
    )
}

pub fn openclaw_thread_jsonl_value(thread_id: &str) -> (r: JsonValue)
    ensures
        r@ == thread_line(thread_id@),
{
    let mut f: Vec<(String, JsonValue)> = Vec::new();
    f.push(("thread_id".to_owned(), jv_str(thread_id.to_owned())));
    let r = jv_object(f);
    assert(field_views(f@) =~= seq![("thread_id"@, Json::Str(thread_id@))]);
    r
}

pub fn openclaw_assistant_message_jsonl_value(text: &str) -> (r: JsonValue)
    ensures
        r@ == assistant_line(text@),
{
    let mut inner: Vec<(String, JsonValue)> = Vec::new();
    inner.push(("type".to_owned(), jv_str("message".to_owned())));
    inner.push(("text".to_owned(), jv_str(text.to_owned())));
    let item = jv_object(inner);
    assert(field_views(inner@) =~= seq![("type"@, Json::Str("message"@)), ("text"@, Json::Str(text@))]);
    let ghost iv = item@;
    let mut f: Vec<(String, JsonValue)> = Vec::new();
    f.push(("item".to_owned(), item));
    let r = jv_object(f);
    assert(field_views(f@) =~= seq![("item"@, iv)]);
    r
}

/// A streamed piece of assistant text, as a `content_block_delta` stream
/// event, so that OpenClaw shows it while the turn still runs.
pub open spec fn stream_delta_line(text: Seq<char>) -> Json {
    Json::Object(
        seq![
            ("type"@, Json::Str("stream_event"@)),
            (
                "event"@,
                Json::Object(
                    seq![
                        ("type"@, Json::Str("content_block_delta"@)),
                        ("index"@, Json::Number(0)),
                        (
                            "delta"@,
                            Json::Object(
                                seq![("type"@, Json::Str("text_delta"@)), ("text"@, Json::Str(text))],
                            ),
                        ),
                    ],
                ),
            ),
        ],
    )
}

pub fn stream_text_delta_value(text: &str) -> (r: JsonValue)
    ensures
        r@ == stream_delta_line(text@),
{
    let mut delta: Vec<(String, JsonValue)> = Vec::new();
    delta.push(("type".to_owned(), jv_str("text_delta".to_owned())));
    delta.push(("text".to_owned(), jv_str(text.to_owned())));
    let delta_v = jv_object(delta);
    assert(field_views(delta@) =~= seq![("type"@, Json::Str("text_delta"@)), ("text"@, Json::Str(text@))]);
    let ghost dv = delta_v@;
    let mut event: Vec<(String, JsonValue)> = Vec::new();
    event.push(("type".to_owned(), jv_str("content_block_delta".to_owned())));
    event.push(("index".to_owned(), JsonValue::Number(0)));
    event.push(("delta".to_owned(), delta_v));
    let event_v = jv_object(event);
    assert(field_views(event@) =~= seq![
        ("type"@, Json::Str("content_block_delta"@)),
        ("index"@, Json::Number(0)),
        ("delta"@, dv),
    ]);
    let ghost ev = event_v@;
    let mut f: Vec<(String, JsonValue)> = Vec::new();
    f.push(("type".to_owned(), jv_str("stream_event".to_owned())));
    f.push(("event".to_owned(), event_v));
    let r = jv_object(f);
    assert(field_views(f@) =~= seq![("type"@, Json::Str("stream_event"@)), ("event"@, ev)]);
    r
}

/// `{"wecode_event": "approval_waiting"}`: keeps OpenClaw's no-output
/// watchdog quiet while an approval waits; OpenClaw ignores it.
pub fn approval_waiting_value() -> (r: JsonValue)
    ensures
        r@ == Json::Object(seq![("wecode_event"@, Json::Str("approval_waiting"@))]),
{
    let mut f: Vec<(String, JsonValue)> = Vec::new();
    f.push(("wecode_event".to_owned(), jv_str("approval_waiting".to_owned())));
    let r = jv_object(f);
    assert(field_views(f@) =~= seq![("wecode_event"@, Json::Str("approval_waiting"@))]);
    r
}

/// What OpenClaw is given for a line of `codex exec --json` output: item
/// lines that carry text as they are, a thread id as a thread line, nothing
/// for the rest.
pub open spec fn openclaw_line_of(line: Seq<char>) -> Option<Json> {
    match json_parse(line) {
        None => None,
        Some(v) => if jstr(jget_opt(jget(v, "item"@), "text"@)) is Some {
            Some(v)
        } else {
            match jstr(jget(v, "thread_id"@)) {
                Some(t) => if trim(t).len() > 0 {
                    Some(thread_line(trim(t)))
                } else {
                    None
                },
                None => None,
            }
        },
    }
}

pub fn codex_stdout_jsonl_line_to_openclaw_value(line: &str) -> (r: Option<JsonValue>)
    ensures
        match r {
            Some(v) => openclaw_line_of(line@) == Some(v@),
            None => openclaw_line_of(line@) is None,
        },
{
    let parsed = match parse_json(line) {
        Some(v) => v,
        None => return None,
    };
    let ik = str_chars("item");
    let tk = str_chars("text");
    if json_str_field(json_get(&parsed, ik.as_slice()), tk.as_slice()).is_some() {
        return Some(parsed);
    }
    let thk = str_chars("thread_id");
    match json_str_field(Some(&parsed), thk.as_slice()) {
        Some(t) => {
            let tr = trim_slice(t.as_slice());
            if tr.len() > 0 {
                Some(openclaw_thread_jsonl_value(chars_to_string(tr).as_str()))
            } else {
                None
            }
        },
        None => None,
    }
}

/// Whether `codex exec resume` failed because the session's rollout file is
/// gone (then a fresh thread is started).
pub fn codex_resume_rollout_is_missing(stderr: &str) -> (r: bool)
    ensures
        r == (contains(stderr@, "thread/resume"@) && contains(
            stderr@,
            "no rollout found for thread id"@,
        )),
{
    let c = str_chars(stderr);
    crate::text::lit_contains(c.as_slice(), "thread/resume") && crate::text::lit_contains(
        c.as_slice(),
        "no rollout found for thread id",
    )
}

// ---------------------------------------------------------------------------
// `wecode runtime-status`
// ---------------------------------------------------------------------------

pub open spec fn prevent_sleep_label(mode: crate::config::PreventSleepMode) -> Seq<char> {
    match mode {
        crate::config::PreventSleepMode::Off => "off"@,
        crate::config::PreventSleepMode::Ac => "ac"@,
        crate::config::PreventSleepMode::Always => "always"@,
    }
}

/// The sleep guard that the gateway's LaunchAgent arguments apply
/// (`unknown` when they could not be read).
pub open spec fn sleep_guard(args: Option<Seq<Seq<char>>>) -> Seq<char> {
    match args {
        None => "unknown"@,
        Some(a) => if a.len() >= 2 && a[0] == crate::openclaw::CAFFEINATE_PATH@ && a[1] == "-i"@ {
            "always"@
        } else if a.len() >= 2 && a[0] == crate::openclaw::CAFFEINATE_PATH@ && a[1] == "-s"@ {
            "ac"@
        } else {
            "off"@
        },
    }
}

pub fn sleep_guard_label(args: Option<&[String]>) -> (r: &'static str)
    ensures
        r@ == sleep_guard(match args {
            Some(a) => Some(strings_view(a@)),
            None => None,
        }),
{
    match args {
        None => "unknown",
        Some(a) => {
            if a.len() >= 2 {
                let first = str_chars(a[0].as_str());
                let second = str_chars(a[1].as_str());
                let caff = str_chars(crate::openclaw::CAFFEINATE_PATH);
                if crate::text::eq_slices(first.as_slice(), caff.as_slice()) {
                    assert(strings_view(a@)[0] == first@);
                    assert(strings_view(a@)[1] == second@);
                    if crate::text::lit_eq(second.as_slice(), "-i") {
                        return "always";
                    }
                    if crate::text::lit_eq(second.as_slice(), "-s") {
                        return "ac";
                    }
                } else {
                    assert(strings_view(a@)[0] == first@);
                }
            }
            "off"
        },
    }
}

/// The report of `wecode runtime-status`.
pub fn runtime_status_message(
    config: &WecodeConfig,
    launch_agent_path: &str,
    launch_agent_found: bool,
    guard: &str,
    gateway: &str,
) -> (r: String)
    ensures
        r@ == join(
            seq![
                "# Wecode Runtime Status"@,
                ""@,
                "- **Profile**: `"@ + config.openclaw.profile@ + "`"@,
                "- **LaunchAgent**: `"@ + launch_agent_path@ + "`"@ + (if launch_agent_found {
                    ""@
                } else {
                    " (missing)"@
                }),
                "- **Configured preventSleep**: `"@ + prevent_sleep_label(config.openclaw.prevent_sleep)
                    + "`"@,
                "- **Sleep guard**: `"@ + guard@ + "`"@,
                "- **Gateway process**: "@ + gateway@,
            ],
            "\n"@,
        ),
{
    let mut lines: Vec<String> = Vec::new();
    push_line(&mut lines, "# Wecode Runtime Status".to_owned());
    push_line(&mut lines, "".to_owned());
    let profile = str_chars(config.openclaw.profile.as_str());
    push_line(&mut lines, chars_to_string(with_lit(lit_then("- **Profile**: `", profile.as_slice()).as_slice(), "`").as_slice()));
    let path = str_chars(launch_agent_path);
    let agent = with_lit(lit_then("- **LaunchAgent**: `", path.as_slice()).as_slice(), "`");
    let agent_line = if launch_agent_found {
        with_lit(agent.as_slice(), "")
    } else {
        with_lit(agent.as_slice(), " (missing)")
    };
    push_line(&mut lines, chars_to_string(agent_line.as_slice()));
    let mode = match config.openclaw.prevent_sleep {
        crate::config::PreventSleepMode::Off => str_chars("off"),
        crate::config::PreventSleepMode::Ac => str_chars("ac"),
        crate::config::PreventSleepMode::Always => str_chars("always"),
    };
    push_line(
        &mut lines,
        chars_to_string(with_lit(lit_then("- **Configured preventSleep**: `", mode.as_slice()).as_slice(), "`").as_slice()),
    );
    let g = str_chars(guard);
    push_line(&mut lines, chars_to_string(with_lit(lit_then("- **Sleep guard**: `", g.as_slice()).as_slice(), "`").as_slice()));
    let gw = str_chars(gateway);
    push_line(&mut lines, chars_to_string(lit_then("- **Gateway process**: ", gw.as_slice()).as_slice()));
    assert(mode@ == prevent_sleep_label(config.openclaw.prevent_sleep));
    assert(strings_view(lines@) =~= seq![
        "# Wecode Runtime Status"@,
        ""@,
        "- **Profile**: `"@ + config.openclaw.profile@ + "`"@,
        "- **LaunchAgent**: `"@ + launch_agent_path@ + "`"@ + (if launch_agent_found {
            ""@
        } else {
            " (missing)"@
        }),
        "- **Configured preventSleep**: `"@ + prevent_sleep_label(config.openclaw.prevent_sleep) + "`"@,
        "- **Sleep guard**: `"@ + guard@ + "`"@,
        "- **Gateway process**: "@ + gateway@,
    ]);
    lines_text(&lines)
}

pub open spec fn no_repeats(s: Seq<Seq<char>>) -> bool {
    forall|i: int, j: int| 0 <= i < j < s.len() ==> s[i] != s[j]
}

proof fn lemma_add_model_keeps_distinct(ms: Seq<Seq<char>>, m: Seq<char>)
    requires
        no_repeats(ms),
    ensures
        no_repeats(add_model(ms, m)),
{
    if !ms.contains(m) {
        let r = ms.push(m);
        assert forall|i: int, j: int| 0 <= i < j < r.len() implies r[i] != r[j] by {
            if j == ms.len() {
                assert(r[i] == ms[i]);
                if r[i] == r[j] {
                    assert(ms.contains(m));
                }
            }
        }
    }
}

proof fn lemma_models_of_distinct(configured: Seq<Seq<char>>)
    ensures
        no_repeats(models_of(configured)),
    decreases configured.len(),
{
    if configured.len() > 0 {
        lemma_models_of_distinct(configured.drop_last());
        let prev = models_of(configured.drop_last());
        match codex_model_of(configured.last()) {
            Some(m) => lemma_add_model_keeps_distinct(prev, m),
            None => lemma_add_model_keeps_distinct(prev, "default"@),
        }
    }
}

/// `:models` lists each model once.
pub proof fn law_configured_models_distinct(c: WecodeConfig)
    ensures
        no_repeats(configured_models(c)),
{
    lemma_models_of_distinct(strings_view(c.codex.models@));
    let base = models_of(strings_view(c.codex.models@));
    match c.codex.model {
        Some(m) => match codex_model_of(m@) {
            Some(x) => lemma_add_model_keeps_distinct(base, x),
            None => {},
        },
        None => {},
    }
}

/// The reply to a `:` command that wecode does not define.
pub fn unknown_command_message() -> (r: &'static str)
    ensures
        r@ == "未定义的命令！可以使用:help查看命令"@,
{
    "未定义的命令！可以使用:help查看命令"
}

/// The reply to `:stop`: whether a running Codex task of this project was
/// stopped.
pub fn stop_message(stopped: bool) -> (r: &'static str)
    ensures
        r@ == if stopped {
            "已停止当前项目正在运行的 Codex 任务。"@
        } else {
            "当前项目没有正在运行的 Codex 任务。"@
        },
{
    if stopped {
        "已停止当前项目正在运行的 Codex 任务。"
    } else {
        "当前项目没有正在运行的 Codex 任务。"
    }
}

/// The reply to a message that the input preparation refused, when the
/// chat is answered rather than the run failing: a removed command
/// (`:sessions`) is answered as an unknown command; any other refusal is an
/// error of the run.
pub fn input_error_reply(error: &str) -> (r: Option<&'static str>)
    ensures
        match r {
            Some(m) => error@ == crate::commands::sessions_removed_error() && m@
                == "未定义的命令！可以使用:help查看命令"@,
            None => error@ != crate::commands::sessions_removed_error(),
        },
{
    let e = str_chars(error);
    if crate::text::lit_eq(
        e.as_slice(),
        "`:sessions` was removed; use `:resume` to resume the previous Codex session.",
    ) {
        Some(unknown_command_message())
    } else {
        None
    }
}

} // verus!
