//! The assistant backend: how a prompt becomes a `codex exec` command line.
use crate::config::{codex_model_from_openclaw_model, codex_model_of, WecodeConfig};
use crate::paths::{expand_tilde, expand_tilde_chars, join_path, join_path_chars};
use crate::text::{chars_to_string, opt_string, str_chars, strings_view};
use vstd::prelude::*;

verus! {

/// One prompt for a backend.
pub struct BackendRunRequest<'a> {
    pub config: &'a WecodeConfig,
    pub prompt: &'a str,
    pub jsonl: bool,
    pub selected_model: Option<&'a str>,
    pub resume_session_id: Option<&'a str>,
}

/// A code review for a backend.
pub struct BackendReviewRequest<'a> {
    pub config: &'a WecodeConfig,
    pub instructions: Option<&'a str>,
    pub jsonl: bool,
    pub selected_model: Option<&'a str>,
}

/// The command that runs a backend turn.
#[derive(Debug, Clone, PartialEq, Eq)]
pub struct BackendCommandSpec {
    pub program: String,
    pub args: Vec<String>,
    pub cwd: String,
}

/// An assistant that can run a prompt as a command.
pub trait AssistantBackend {
    fn id(&self) -> &'static str;

    /// The command for `request`, writing the final message to
    /// `output_path` and running in `target_cwd`.
    fn run_command_spec(
        &self,
        request: &BackendRunRequest<'_>,
        output_path: &str,
        target_cwd: &str,
    ) -> Result<BackendCommandSpec, String>;
}

/// The Codex CLI backend.
#[derive(Debug, Default, Clone, Copy, PartialEq, Eq)]
pub struct CodexBackend;

pub open spec fn opt_str(o: Option<&str>) -> Option<Seq<char>> {
    match o {
        Some(s) => Some(s@),
        None => None,
    }
}

/// The model a turn runs with: the model selected in OpenClaw when it names
/// one, else the configured Codex model.
pub open spec fn request_model(selected: Option<Seq<char>>, configured: Option<Seq<char>>) -> Option<
    Seq<char>,
> {
    match selected {
        Some(m) => match codex_model_of(m) {
            Some(x) => Some(x),
            None => configured,
        },
        None => configured,
    }
}

/// `codex exec [resume] --json -o <output> [-m <model>] (<session> | -s
/// <sandbox> -C <cwd>) -- <prompt>`.
pub open spec fn exec_args(
    resume: Option<Seq<char>>,
    output: Seq<char>,
    model: Option<Seq<char>>,
    sandbox: Seq<char>,
    cwd: Seq<char>,
    prompt: Seq<char>,
) -> Seq<Seq<char>> {
    seq!["exec"@] + (if resume is Some {
        seq!["resume"@]
    } else {
        Seq::empty()
    }) + seq!["--json"@, "-o"@, output] + match model {
        Some(m) => seq!["-m"@, m],
        None => Seq::empty(),
    } + match resume {
        Some(s) => seq![s],
        None => seq!["-s"@, sandbox, "-C"@, cwd],
    } + seq!["--"@, prompt]
}

pub open spec fn request_args(r: BackendRunRequest<'_>, output: Seq<char>, cwd: Seq<char>) -> Seq<
    Seq<char>,
> {
    exec_args(
        opt_str(r.resume_session_id),
        output,
        request_model(opt_str(r.selected_model), opt_string(r.config.codex.model)),
        r.config.codex.sandbox@,
        cwd,
        r.prompt@,
    )
}

fn effective_request_model(request: &BackendRunRequest<'_>) -> (r: Option<String>)
    ensures
        opt_string(r) == request_model(
            opt_str(request.selected_model),
            opt_string(request.config.codex.model),
        ),
{
    if let Some(model) = request.selected_model {
        match codex_model_from_openclaw_model(model) {
            Some(m) => {
                return Some(m);
            },
            None => {},
        }
    }
    request.config.codex.model.clone()
}

fn push_arg(args: &mut Vec<String>, a: String)
    ensures
        strings_view(final(args)@) == strings_view(old(args)@).push(a@),
{
    let ghost before = strings_view(args@);
    args.push(a);
    assert(strings_view(args@) =~= before.push(a@));
}

impl AssistantBackend for CodexBackend {
    fn id(&self) -> (r: &'static str)
        ensures
            r@ == "codex"@,
    {
        "codex"
    }

    fn run_command_spec(
        &self,
        request: &BackendRunRequest<'_>,
        output_path: &str,
        target_cwd: &str,
    ) -> (r: Result<BackendCommandSpec, String>)
        ensures
            r matches Ok(spec) && spec.program@ == "codex"@ && spec.cwd@ == target_cwd@
                && strings_view(spec.args@) == request_args(*request, output_path@, target_cwd@),
    {
        let mut args: Vec<String> = Vec::new();
        push_arg(&mut args, "exec".to_owned());
        if request.resume_session_id.is_some() {
            push_arg(&mut args, "resume".to_owned());
        }
        push_arg(&mut args, "--json".to_owned());
        push_arg(&mut args, "-o".to_owned());
        push_arg(&mut args, output_path.to_owned());
        let model = effective_request_model(request);
        if let Some(m) = model {
            push_arg(&mut args, "-m".to_owned());
            push_arg(&mut args, m);
        }
        if let Some(session_id) = request.resume_session_id {
            push_arg(&mut args, session_id.to_owned());
        } else {
            push_arg(&mut args, "-s".to_owned());
            push_arg(&mut args, request.config.codex.sandbox.clone());
            push_arg(&mut args, "-C".to_owned());
            push_arg(&mut args, target_cwd.to_owned());
        }
        push_arg(&mut args, "--".to_owned());
        push_arg(&mut args, request.prompt.to_owned());
        assert(strings_view(args@) =~= request_args(*request, output_path@, target_cwd@));
        Ok(BackendCommandSpec { program: "codex".to_owned(), args, cwd: target_cwd.to_owned() })
    }
}

/// The directory a backend turn runs in, before it is made canonical: the
/// configured Codex directory (with `~` expanded) or the current directory,
/// a relative one taken from the current directory.
pub open spec fn target_cwd(
    configured: Option<Seq<char>>,
    home: Option<Seq<char>>,
    current_dir: Seq<char>,
) -> Seq<char> {
    let path = match configured {
        Some(c) => expand_tilde(c, home),
        None => current_dir,
    };
    if path.len() > 0 && path[0] == '/' {
        path
    } else {
        join_path(current_dir, path)
    }
}

pub fn backend_target_cwd(config: &WecodeConfig, home: Option<&str>, current_dir: &str) -> (r:
    String)
    ensures
        r@ == target_cwd(opt_string(config.codex.cwd), opt_str(home), current_dir@),
{
    let cur = str_chars(current_dir);
    let path = match &config.codex.cwd {
        Some(c) => {
            let cc = str_chars(c.as_str());
            expand_tilde_chars(cc.as_slice(), home)
        },
        None => crate::text::concat2(cur.as_slice(), &[]),
    };
    if path.len() > 0 && path[0] == '/' {
        chars_to_string(path.as_slice())
    } else {
        chars_to_string(join_path_chars(cur.as_slice(), path.as_slice()).as_slice())
    }
}

/// Where `--yolo` goes in a `codex exec` argument list: after `exec` or
/// `exec resume`; an argument list of another command gets none.
pub open spec fn yolo_position(a: Seq<Seq<char>>) -> int {
    if a.len() >= 2 && a[0] == "exec"@ && a[1] == "resume"@ {
        2
    } else if a.len() >= 1 && a[0] == "exec"@ {
        1
    } else {
        0
    }
}

/// The arguments of a turn that runs in Codex's full-auto mode, so that no
/// approval question can stall it.
pub open spec fn yolo_args(a: Seq<Seq<char>>) -> Seq<Seq<char>> {
    let k = yolo_position(a);
    if k == 0 {
        a
    } else {
        a.take(k).push("--yolo"@) + a.skip(k)
    }
}

fn is_word(s: &String, w: &str) -> (r: bool)
    ensures
        r == (s@ == w@),
{
    let c = str_chars(s.as_str());
    crate::text::lit_eq(c.as_slice(), w)
}

pub fn with_yolo_flag(args: Vec<String>) -> (r: Vec<String>)
    ensures
        strings_view(r@) == yolo_args(strings_view(args@)),
{
    let ghost a = strings_view(args@);
    let n = args.len();
    assert(n >= 1 ==> a[0] == args@[0]@);
    assert(n >= 2 ==> a[1] == args@[1]@);
    let k: usize = if n >= 2 && is_word(&args[0], "exec") && is_word(&args[1], "resume") {
        2
    } else if n >= 1 && is_word(&args[0], "exec") {
        1
    } else {
        0
    };
    if k == 0 {
        return args;
    }
    let mut out: Vec<String> = Vec::new();
    let mut i: usize = 0;
    while i < n
        invariant
            n == args.len(),
            a == strings_view(args@),
            1 <= k <= 2,
            k <= n,
            k as int == yolo_position(a),
            i <= n,
            strings_view(out@) == if i <= k {
                a.take(i as int)
            } else {
                a.take(k as int).push("--yolo"@) + a.skip(k as int).take(i - k)
            },
        decreases n - i,
    {
        if i == k {
            out.push("--yolo".to_owned());
            assert(strings_view(out@) =~= a.take(k as int).push("--yolo"@) + a.skip(k as int).take(0));
        }
        let ghost before = strings_view(out@);
        let item = args[i].clone();
        assert(item@ == a[i as int]);
        out.push(item);
        proof {
            assert(strings_view(out@) =~= before.push(a[i as int]));
            if i < k {
                assert(strings_view(out@) =~= a.take(i + 1));
            } else {
                assert(strings_view(out@) =~= a.take(k as int).push("--yolo"@) + a.skip(k as int).take(i + 1 - k));
            }
        }
        i += 1;
    }
    if k == n {
        out.push("--yolo".to_owned());
        assert(a.skip(k as int) =~= Seq::<Seq<char>>::empty());
        assert(a.take(k as int) =~= a);
        assert(strings_view(out@) =~= a.take(k as int).push("--yolo"@) + a.skip(k as int));
    } else {
        assert(a.skip(k as int).take(n - k) =~= a.skip(k as int));
    }
    out
}

/// `codex exec review --yolo --json -o <output> --uncommitted [-m <model>]
/// [-- <instructions>]`: instructions are passed only when not blank.
pub open spec fn review_args(
    output: Seq<char>,
    model: Option<Seq<char>>,
    instructions: Option<Seq<char>>,
) -> Seq<Seq<char>> {
    seq!["exec"@, "review"@, "--yolo"@, "--json"@, "-o"@, output, "--uncommitted"@] + match model {
        Some(m) => seq!["-m"@, m],
        None => Seq::empty(),
    } + match instructions {
        Some(t) => if crate::text::trim(t).len() > 0 {
            seq!["--"@, t]
        } else {
            Seq::empty()
        },
        None => Seq::empty(),
    }
}

/// The command of `:review`: Codex reviews the uncommitted changes of the
/// project at `cwd` with `model` (the model the project runs with).
pub fn review_command_spec(
    instructions: Option<&str>,
    model: Option<&str>,
    output: &str,
    cwd: &str,
) -> (s: BackendCommandSpec)
    ensures
        s.program@ == "codex"@,
        s.cwd@ == cwd@,
        strings_view(s.args@) == review_args(output@, opt_str(model), opt_str(instructions)),
{
    let mut args: Vec<String> = Vec::new();
    push_arg(&mut args, "exec".to_owned());
    push_arg(&mut args, "review".to_owned());
    push_arg(&mut args, "--yolo".to_owned());
    push_arg(&mut args, "--json".to_owned());
    push_arg(&mut args, "-o".to_owned());
    push_arg(&mut args, output.to_owned());
    push_arg(&mut args, "--uncommitted".to_owned());
    if let Some(m) = model {
        push_arg(&mut args, "-m".to_owned());
        push_arg(&mut args, m.to_owned());
    }
    if let Some(t) = instructions {
        let tc = str_chars(t);
        if crate::text::trim_slice(tc.as_slice()).len() > 0 {
            push_arg(&mut args, "--".to_owned());
            push_arg(&mut args, t.to_owned());
        }
    }
    assert(strings_view(args@) =~= review_args(output@, opt_str(model), opt_str(instructions)));
    BackendCommandSpec { program: "codex".to_owned(), args, cwd: cwd.to_owned() }
}

} // verus!
