//! How bootstrap runs its steps: which ones the user watches, the spinner
//! labels, the `PATH` each step gets, and OpenClaw's name in shown output.
use crate::command_step::{CommandStep, StepView};
use crate::config::WecodeConfig;
use crate::diagnostics::ToolReport;
use crate::paths::{expand_tilde, expand_tilde_chars, join_path, join_path_chars};
use crate::text::{
    ascii_lower, ascii_lower_slice, chars_to_string, concat2, contains, lit_contains, lit_eq,
    matches_at, matches_at_exec, str_chars, strings_view, with_lit,
};
use vstd::prelude::*;

verus! {

// ---------------------------------------------------------------------------
// OpenClaw's name in output shown to the user
// ---------------------------------------------------------------------------

pub open spec fn openclaw_word() -> Seq<char> {
    seq!['o', 'p', 'e', 'n', 'c', 'l', 'a', 'w']
}

/// `s[i..]` with every `openclaw` (in any letter case, left to right) written
/// as `wecode`.
pub open spec fn rebrand_from(s: Seq<char>, lower: Seq<char>, i: int) -> Seq<char>
    decreases s.len() + 8 - i,
{
    if i < 0 || i >= s.len() {
        if 0 <= i <= s.len() {
            s.skip(i)
        } else {
            Seq::empty()
        }
    } else if matches_at(lower, openclaw_word(), i) {
        "wecode"@ + rebrand_from(s, lower, i + 8)
    } else {
        seq![s[i]] + rebrand_from(s, lower, i + 1)
    }
}

pub open spec fn rebrand(s: Seq<char>) -> Seq<char> {
    rebrand_from(s, ascii_lower(s), 0)
}

/// `input` with OpenClaw's name replaced by wecode's.
pub fn replace_openclaw_case_insensitive(input: &str) -> (r: String)
    ensures
        r@ == rebrand(input@),
{
    let s = str_chars(input);
    let lower = ascii_lower_slice(s.as_slice());
    let word = str_chars("openclaw");
    proof {
        reveal_strlit("openclaw");
        assert(word@ =~= openclaw_word());
    }
    let mut out: Vec<char> = Vec::new();
    let mut i: usize = 0;
    while i < s.len()
        invariant
            i <= s.len(),
            lower@ == ascii_lower(s@),
            lower@.len() == s@.len(),
            word@ == openclaw_word(),
            out@ + rebrand_from(s@, lower@, i as int) == rebrand(input@),
            s@ == input@,
        decreases s.len() - i,
    {
        if matches_at_exec(lower.as_slice(), word.as_slice(), i) {
            proof {
                assert(out@ + ("wecode"@ + rebrand_from(s@, lower@, i + 8)) =~= (out@ + "wecode"@)
                    + rebrand_from(s@, lower@, i + 8));
            }
            out = with_lit(out.as_slice(), "wecode");
            i = i + 8;
        } else {
            proof {
                assert(out@ + (seq![s@[i as int]] + rebrand_from(s@, lower@, i + 1)) =~= out@.push(
                    s@[i as int],
                ) + rebrand_from(s@, lower@, i + 1));
            }
            out.push(s[i]);
            i = i + 1;
        }
    }
    proof {
        assert(s@.skip(s.len() as int) =~= Seq::<char>::empty());
        assert(out@ + Seq::<char>::empty() =~= out@);
    }
    chars_to_string(out.as_slice())
}

// ---------------------------------------------------------------------------
// Kinds of steps
// ---------------------------------------------------------------------------

pub open spec fn is_openclaw_install(s: StepView) -> bool {
    s.program == "npm"@ && s.args.contains("install"@) && s.args.contains("openclaw@latest"@)
}

pub open spec fn is_feishu_plugin_install(s: StepView) -> bool {
    s.args == seq!["plugins"@, "install"@, "@openclaw/feishu"@, "--force"@]
}

pub open spec fn is_weixin_install(s: StepView) -> bool {
    s.program == "npx"@ && exists|i: int|
        0 <= i < s.args.len() && contains(#[trigger] s.args[i], "openclaw-weixin-cli"@)
}

pub open spec fn is_feishu_login(s: StepView) -> bool {
    s.args == seq!["channels"@, "login"@, "--channel"@, "feishu"@]
}

fn args_contain(args: &Vec<String>, lit: &str) -> (r: bool)
    ensures
        r == strings_view(args@).contains(lit@),
{
    let mut i: usize = 0;
    while i < args.len()
        invariant
            i <= args.len(),
            forall|k: int| 0 <= k < i ==> strings_view(args@)[k] != lit@,
        decreases args.len() - i,
    {
        let a = str_chars(args[i].as_str());
        if lit_eq(a.as_slice(), lit) {
            assert(strings_view(args@)[i as int] == lit@);
            return true;
        }
        i += 1;
    }
    false
}

fn args_are4(args: &Vec<String>, a: &str, b: &str, c: &str, d: &str) -> (r: bool)
    ensures
        r == (strings_view(args@) == seq![a@, b@, c@, d@]),
{
    if args.len() != 4 {
        proof {
            if strings_view(args@) == seq![a@, b@, c@, d@] {
                assert(strings_view(args@).len() == 4);
            }
        }
        return false;
    }
    let x0 = str_chars(args[0].as_str());
    let x1 = str_chars(args[1].as_str());
    let x2 = str_chars(args[2].as_str());
    let x3 = str_chars(args[3].as_str());
    let r = lit_eq(x0.as_slice(), a) && lit_eq(x1.as_slice(), b) && lit_eq(x2.as_slice(), c)
        && lit_eq(x3.as_slice(), d);
    proof {
        if r {
            assert(strings_view(args@) =~= seq![a@, b@, c@, d@]);
        } else if strings_view(args@) == seq![a@, b@, c@, d@] {
            assert(strings_view(args@)[0] == a@);
            assert(strings_view(args@)[1] == b@);
            assert(strings_view(args@)[2] == c@);
            assert(strings_view(args@)[3] == d@);
        }
    }
    r
}

pub fn is_openclaw_install_step(step: &CommandStep) -> (r: bool)
    ensures
        r == is_openclaw_install(step@),
{
    let p = str_chars(step.program.as_str());
    lit_eq(p.as_slice(), "npm") && args_contain(&step.args, "install") && args_contain(
        &step.args,
        "openclaw@latest",
    )
}

pub fn is_feishu_plugin_install_step(step: &CommandStep) -> (r: bool)
    ensures
        r == is_feishu_plugin_install(step@),
{
    args_are4(&step.args, "plugins", "install", "@openclaw/feishu", "--force")
}

pub fn is_feishu_login_step(step: &CommandStep) -> (r: bool)
    ensures
        r == is_feishu_login(step@),
{
    args_are4(&step.args, "channels", "login", "--channel", "feishu")
}

pub fn is_weixin_install_step(step: &CommandStep) -> (r: bool)
    ensures
        r == is_weixin_install(step@),
{
    let p = str_chars(step.program.as_str());
    if !lit_eq(p.as_slice(), "npx") {
        return false;
    }
    let ghost av = strings_view(step.args@);
    let mut i: usize = 0;
    while i < step.args.len()
        invariant
            i <= step.args.len(),
            av == strings_view(step.args@),
            step@.program == "npx"@,
            forall|k: int| 0 <= k < i ==> !contains(#[trigger] av[k], "openclaw-weixin-cli"@),
        decreases step.args.len() - i,
    {
        let a = str_chars(step.args[i].as_str());
        if lit_contains(a.as_slice(), "openclaw-weixin-cli") {
            assert(contains(av[i as int], "openclaw-weixin-cli"@));
            assert(step@.args[i as int] == av[i as int]);
            assert(contains(step@.args[i as int], "openclaw-weixin-cli"@));
            return true;
        }
        i += 1;
    }
    false
}

/// Steps whose output the user sees (they show a QR code or ask for input).
pub fn is_visible_bootstrap_step(step: &CommandStep) -> (r: bool)
    ensures
        r == (is_weixin_install(step@) || is_feishu_login(step@)),
{
    is_weixin_install_step(step) || is_feishu_login_step(step)
}

pub fn visible_bootstrap_spinner_label(step: &CommandStep) -> (r: Option<&'static str>)
    ensures
        is_weixin_install(step@) ==> (r matches Some(t) && t@ == "Wecode 启动中 · 安装微信"@),
        !is_weixin_install(step@) ==> r is None,
{
    if is_weixin_install_step(step) {
        Some("Wecode 启动中 · 安装微信")
    } else {
        None
    }
}

pub fn logged_bootstrap_spinner_label(step: &CommandStep) -> (r: Option<&'static str>)
    ensures
        is_openclaw_install(step@) ==> (r matches Some(t) && t@ == "Wecode 启动中"@),
        !is_openclaw_install(step@) && is_feishu_plugin_install(step@) ==> (r matches Some(t) && t@
            == "Wecode 启动中 · 安装飞书"@),
        !is_openclaw_install(step@) && !is_feishu_plugin_install(step@) ==> r is None,
{
    if is_openclaw_install_step(step) {
        Some("Wecode 启动中")
    } else if is_feishu_plugin_install_step(step) {
        Some("Wecode 启动中 · 安装飞书")
    } else {
        None
    }
}

// ---------------------------------------------------------------------------
// PATH and files
// ---------------------------------------------------------------------------

/// The directories put before `PATH` when a step runs: the Node directory
/// found at run time, then the step's own (with `~` expanded), each once.
pub open spec fn path_dirs(
    runtime_node: Option<Seq<char>>,
    step_dirs: Seq<Seq<char>>,
    home: Option<Seq<char>>,
) -> Seq<Seq<char>>
    decreases step_dirs.len(),
{
    if step_dirs.len() == 0 {
        match runtime_node {
            Some(d) => seq![d],
            None => Seq::empty(),
        }
    } else {
        let prev = path_dirs(runtime_node, step_dirs.drop_last(), home);
        let e = expand_tilde(step_dirs.last(), home);
        if prev.contains(e) {
            prev
        } else {
            prev.push(e)
        }
    }
}

pub fn runtime_path_prepend(
    runtime_node_bin_dir: &Option<String>,
    step_path_prepend: &[String],
    home: Option<&str>,
) -> (r: Vec<String>)
    ensures
        strings_view(r@) == path_dirs(
            crate::text::opt_string(*runtime_node_bin_dir),
            strings_view(step_path_prepend@),
            crate::backend::opt_str(home),
        ),
{
    let mut paths: Vec<String> = Vec::new();
    match runtime_node_bin_dir {
        Some(d) => paths.push(d.clone()),
        None => {},
    }
    let ghost sv = strings_view(step_path_prepend@);
    let ghost rn = crate::text::opt_string(*runtime_node_bin_dir);
    let ghost hv = crate::backend::opt_str(home);
    assert(sv.take(0) =~= Seq::<Seq<char>>::empty());
    assert(strings_view(paths@) =~= path_dirs(rn, sv.take(0), hv));
    let mut i: usize = 0;
    while i < step_path_prepend.len()
        invariant
            i <= step_path_prepend.len(),
            sv == strings_view(step_path_prepend@),
            rn == crate::text::opt_string(*runtime_node_bin_dir),
            hv == crate::backend::opt_str(home),
            strings_view(paths@) == path_dirs(rn, sv.take(i as int), hv),
        decreases step_path_prepend.len() - i,
    {
        assert(sv.take(i + 1).drop_last() =~= sv.take(i as int));
        assert(sv.take(i + 1).last() == step_path_prepend@[i as int]@);
        let p = str_chars(step_path_prepend[i].as_str());
        let e = chars_to_string(expand_tilde_chars(p.as_slice(), home).as_slice());
        let mut found = false;
        let mut k: usize = 0;
        while k < paths.len()
            invariant
                k <= paths.len(),
                !found ==> forall|j: int| 0 <= j < k ==> strings_view(paths@)[j] != e@,
                found ==> strings_view(paths@).contains(e@),
            decreases paths.len() - k,
        {
            if paths[k] == e {
                assert(strings_view(paths@)[k as int] == e@);
                found = true;
            }
            k += 1;
        }
        if !found {
            let ghost before = strings_view(paths@);
            paths.push(e);
            assert(strings_view(paths@) =~= before.push(e@));
        }
        i += 1;
    }
    assert(sv.take(step_path_prepend.len() as int) =~= sv);
    paths
}

/// A copy of `step` that puts `path_prepend` before `PATH`.
pub fn step_with_path_prepend(step: &CommandStep, path_prepend: Vec<String>) -> (r: CommandStep)
    ensures
        r@.program == step@.program,
        r@.args == step@.args,
        r@.env == step@.env,
        r@.path_prepend == strings_view(path_prepend@),
{
    let mut args: Vec<String> = Vec::new();
    let mut i: usize = 0;
    while i < step.args.len()
        invariant
            i <= step.args.len(),
            strings_view(args@) == strings_view(step.args@).take(i as int),
        decreases step.args.len() - i,
    {
        let ghost before = strings_view(args@);
        args.push(step.args[i].clone());
        assert(strings_view(args@) =~= before.push(strings_view(step.args@)[i as int]));
        assert(strings_view(step.args@).take(i + 1) =~= strings_view(step.args@).take(i as int).push(
            strings_view(step.args@)[i as int],
        ));
        i += 1;
    }
    assert(strings_view(step.args@).take(step.args.len() as int) =~= strings_view(step.args@));
    let mut env: Vec<(String, String)> = Vec::new();
    let mut j: usize = 0;
    while j < step.env.len()
        invariant
            j <= step.env.len(),
            crate::command_step::pairs_view(env@) == crate::command_step::pairs_view(step.env@).take(
                j as int,
            ),
        decreases step.env.len() - j,
    {
        let ghost before = crate::command_step::pairs_view(env@);
        env.push((step.env[j].0.clone(), step.env[j].1.clone()));
        assert(crate::command_step::pairs_view(env@) =~= before.push(
            crate::command_step::pairs_view(step.env@)[j as int],
        ));
        assert(crate::command_step::pairs_view(step.env@).take(j + 1)
            =~= crate::command_step::pairs_view(step.env@).take(j as int).push(
            crate::command_step::pairs_view(step.env@)[j as int],
        ));
        j += 1;
    }
    assert(crate::command_step::pairs_view(step.env@).take(step.env.len() as int)
        =~= crate::command_step::pairs_view(step.env@));
    CommandStep { program: step.program.clone(), args, path_prepend, env }
}

pub open spec fn state_file(c: WecodeConfig, home: Option<Seq<char>>, name: Seq<char>) -> Seq<char> {
    join_path(expand_tilde(c.openclaw.state_dir@, home), name)
}

fn state_file_path(config: &WecodeConfig, home: Option<&str>, name: &str) -> (r: String)
    ensures
        r@ == state_file(*config, crate::backend::opt_str(home), name@),
{
    let s = str_chars(config.openclaw.state_dir.as_str());
    let base = expand_tilde_chars(s.as_slice(), home);
    let n = str_chars(name);
    chars_to_string(join_path_chars(base.as_slice(), n.as_slice()).as_slice())
}

/// `<state dir>/bootstrap.log`.
pub fn bootstrap_log_path(config: &WecodeConfig, home: Option<&str>) -> (r: String)
    ensures
        r@ == state_file(*config, crate::backend::opt_str(home), "bootstrap.log"@),
{
    state_file_path(config, home, "bootstrap.log")
}

/// `<state dir>/logs`.
pub fn prompt_flow_log_dir(config: &WecodeConfig, home: Option<&str>) -> (r: String)
    ensures
        r@ == state_file(*config, crate::backend::opt_str(home), "logs"@),
{
    state_file_path(config, home, "logs")
}

/// Whether the probed tools allow bootstrap: every check passes, except
/// that a missing OpenClaw is fine when bootstrap installs it and Codex is
/// not required yet.
pub open spec fn prereqs_ok(items: Seq<(Seq<char>, bool, Seq<char>)>, installs_openclaw: bool) -> bool {
    forall|i: int|
        0 <= i < items.len() ==> if (#[trigger] items[i]).0 == "openclaw"@ {
            items[i].1 || installs_openclaw
        } else if items[i].0 == "codex"@ {
            true
        } else {
            items[i].1
        }
}

pub fn bootstrap_prereqs_ok(report: &ToolReport, openclaw_will_be_installed: bool) -> (r: bool)
    ensures
        r == prereqs_ok(
            report.items@.map_values(|c: crate::diagnostics::ToolCheck| crate::diagnostics::check_view(c)),
            openclaw_will_be_installed,
        ),
{
    let ghost iv = report.items@.map_values(
        |c: crate::diagnostics::ToolCheck| crate::diagnostics::check_view(c),
    );
    let mut i: usize = 0;
    while i < report.items.len()
        invariant
            i <= report.items.len(),
            iv == report.items@.map_values(
                |c: crate::diagnostics::ToolCheck| crate::diagnostics::check_view(c),
            ),
            forall|k: int|
                0 <= k < i ==> if (#[trigger] iv[k]).0 == "openclaw"@ {
                    iv[k].1 || openclaw_will_be_installed
                } else if iv[k].0 == "codex"@ {
                    true
                } else {
                    iv[k].1
                },
        decreases report.items.len() - i,
    {
        let item = &report.items[i];
        let n = str_chars(item.name.as_str());
        let ok = if lit_eq(n.as_slice(), "openclaw") {
            item.ok || openclaw_will_be_installed
        } else if lit_eq(n.as_slice(), "codex") {
            true
        } else {
            item.ok
        };
        if !ok {
            assert(!(if iv[i as int].0 == "openclaw"@ {
                iv[i as int].1 || openclaw_will_be_installed
            } else if iv[i as int].0 == "codex"@ {
                true
            } else {
                iv[i as int].1
            }));
            return false;
        }
        i += 1;
    }
    true
}

} // verus!
