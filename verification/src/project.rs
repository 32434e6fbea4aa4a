//! Per-project state that wecode keeps under OpenClaw's state directory (the
//! chosen project directory, the fresh-thread marker, the model override,
//! confirmed-command approvals), and the local replies of the commands that
//! read or change it.  The program reads and writes the files; these
//! functions decide what goes where and what is said.
use crate::backend::{opt_str, request_model};
use crate::config::WecodeConfig;
use crate::messages::{truncate_for_weixin, weixin_truncated};
use crate::native_approval::NativeApprovalDecision;
use crate::paths::{expand_tilde, expand_tilde_chars, join_path, join_path_chars};
use crate::run_lock::{fnv1a, hex_fixed, stable_key_hash};
use crate::sessions::{keys_of, sort_by_text_key, texts_ascending, CodexSessionSummary};
use crate::text::{
    chars_to_string, concat2, join, join_chars, lit_then, opt_string, starts_with, str_chars,
    strings_view, trim, trim_slice, with_lit, words_view,
};
use vstd::prelude::*;
use vstd::string::StringSliceAdditionalSpecFns;

verus! {

// ---------------------------------------------------------------------------
// State files
// ---------------------------------------------------------------------------

/// The state directory with `~` expanded.
pub open spec fn state_dir_of(c: WecodeConfig, home: Option<Seq<char>>) -> Seq<char> {
    expand_tilde(c.openclaw.state_dir@, home)
}

fn state_dir_chars(config: &WecodeConfig, home: Option<&str>) -> (r: Vec<char>)
    ensures
        r@ == state_dir_of(*config, opt_str(home)),
{
    let s = str_chars(config.openclaw.state_dir.as_str());
    expand_tilde_chars(s.as_slice(), home)
}

fn state_file(config: &WecodeConfig, home: Option<&str>, name: &str) -> (r: String)
    ensures
        r@ == join_path(state_dir_of(*config, opt_str(home)), name@),
{
    let d = state_dir_chars(config, home);
    let n = str_chars(name);
    chars_to_string(join_path_chars(d.as_slice(), n.as_slice()).as_slice())
}

/// `<state dir>/codex-cwd.txt`: the project directory chosen with `:cd`.
pub fn project_cwd_override_path(config: &WecodeConfig, home: Option<&str>) -> (r: String)
    ensures
        r@ == join_path(state_dir_of(*config, opt_str(home)), "codex-cwd.txt"@),
{
    state_file(config, home, "codex-cwd.txt")
}

/// `<state dir>/codex-fresh-next.txt`: present when the next run starts a
/// new Codex thread.
pub fn project_fresh_next_path(config: &WecodeConfig, home: Option<&str>) -> (r: String)
    ensures
        r@ == join_path(state_dir_of(*config, opt_str(home)), "codex-fresh-next.txt"@),
{
    state_file(config, home, "codex-fresh-next.txt")
}

pub open spec fn model_path(c: WecodeConfig, home: Option<Seq<char>>, project_key: &str) -> Seq<char> {
    join_path(
        join_path(state_dir_of(c, home), "codex-models"@),
        hex_fixed(fnv1a(project_key.spec_bytes()) as nat, 16) + ".txt"@,
    )
}

/// `<state dir>/codex-models/<hash of the project key>.txt`: the model set
/// with `:model` for one project.
pub fn model_override_path(config: &WecodeConfig, home: Option<&str>, project_key: &str) -> (r:
    String)
    ensures
        r@ == model_path(*config, opt_str(home), project_key),
{
    let d = state_dir_chars(config, home);
    let sub = str_chars("codex-models");
    let dir = join_path_chars(d.as_slice(), sub.as_slice());
    let hash = stable_key_hash(project_key);
    let h = str_chars(hash.as_str());
    let name = with_lit(h.as_slice(), ".txt");
    chars_to_string(join_path_chars(dir.as_slice(), name.as_slice()).as_slice())
}

/// `<state dir>/approvals/<id>.json`: a confirmed command waiting for
/// `:approve`.
pub fn custom_approval_path(config: &WecodeConfig, home: Option<&str>, approval_id: &str) -> (r:
    String)
    ensures
        r@ == join_path(
            join_path(state_dir_of(*config, opt_str(home)), "approvals"@),
            approval_id@ + ".json"@,
        ),
{
    let d = state_dir_chars(config, home);
    let sub = str_chars("approvals");
    let dir = join_path_chars(d.as_slice(), sub.as_slice());
    let id = str_chars(approval_id);
    let name = with_lit(id.as_slice(), ".json");
    chars_to_string(join_path_chars(dir.as_slice(), name.as_slice()).as_slice())
}

/// The refusal when a state file cannot be written.
pub fn project_state_error(config: &WecodeConfig, home: Option<&str>, action: &str, cause: &str) -> (r:
    String)
    ensures
        r@ == "Cannot "@ + action@
            + ": Wecode cannot write state files under openclaw.stateDir `"@ + state_dir_of(
            *config,
            opt_str(home),
        )
            + "`. Check the configured path and permissions for this user. Cause: "@ + cause@,
{
    let a = str_chars(action);
    let d = state_dir_chars(config, home);
    let c = str_chars(cause);
    let mut out = lit_then("Cannot ", a.as_slice());
    out = concat2(
        with_lit(out.as_slice(), ": Wecode cannot write state files under openclaw.stateDir `").as_slice(),
        d.as_slice(),
    );
    out = concat2(
        with_lit(
            out.as_slice(),
            "`. Check the configured path and permissions for this user. Cause: ",
        ).as_slice(),
        c.as_slice(),
    );
    chars_to_string(out.as_slice())
}

// ---------------------------------------------------------------------------
// What the state files say
// ---------------------------------------------------------------------------

pub open spec fn nonblank(text: Seq<char>) -> Option<Seq<char>> {
    if trim(text).len() > 0 {
        Some(trim(text))
    } else {
        None
    }
}

/// The text of a state file, trimmed, unless it is blank.
pub fn state_value(text: &str) -> (r: Option<String>)
    ensures
        opt_string(r) == nonblank(text@),
{
    let c = str_chars(text);
    let t = trim_slice(c.as_slice());
    if t.len() > 0 {
        Some(chars_to_string(t))
    } else {
        None
    }
}

/// The key under which a project's state is kept: its directory, else the
/// configured directory, else `.`.
pub open spec fn project_key_of(target_cwd: Option<Seq<char>>, configured: Option<Seq<char>>) -> Seq<
    char,
> {
    match target_cwd {
        Some(t) => t,
        None => match configured {
            Some(c) => c,
            None => "."@,
        },
    }
}

pub fn project_key(target_cwd: Option<&str>, configured_cwd: &Option<String>) -> (r: String)
    ensures
        r@ == project_key_of(opt_str(target_cwd), opt_string(*configured_cwd)),
{
    match target_cwd {
        Some(t) => t.to_owned(),
        None => match configured_cwd {
            Some(c) => c.clone(),
            None => ".".to_owned(),
        },
    }
}

/// The key of the run lock: the resumed session, else the project.
pub fn run_lock_key(
    resume_session_id: Option<&str>,
    target_cwd: Option<&str>,
    configured_cwd: &Option<String>,
) -> (r: String)
    ensures
        r@ == match resume_session_id {
            Some(s) => s@,
            None => project_key_of(opt_str(target_cwd), opt_string(*configured_cwd)),
        },
{
    match resume_session_id {
        Some(s) => s.to_owned(),
        None => project_key(target_cwd, configured_cwd),
    }
}

/// The model of a project's runs: the `:model` override when its file holds
/// one, else the model OpenClaw selected, else the configured one.
pub open spec fn project_model(
    override_text: Option<Seq<char>>,
    selected: Option<Seq<char>>,
    configured: Option<Seq<char>>,
) -> Option<Seq<char>> {
    match override_text {
        Some(t) => match nonblank(t) {
            Some(m) => Some(m),
            None => request_model(selected, configured),
        },
        None => request_model(selected, configured),
    }
}

pub fn project_codex_model(
    override_text: Option<&str>,
    config: &WecodeConfig,
    selected_model: Option<&str>,
) -> (r: Option<String>)
    ensures
        opt_string(r) == project_model(
            opt_str(override_text),
            opt_str(selected_model),
            opt_string(config.codex.model),
        ),
{
    if let Some(t) = override_text {
        if let Some(m) = state_value(t) {
            return Some(m);
        }
    }
    crate::codex_remote::effective_codex_model(config, selected_model)
}

/// What `:cd` writes into the project-directory file (a directory path,
/// with no whitespace at either end) is what later runs read back from it.
pub proof fn law_project_cwd_reads_back(target: Seq<char>)
    requires
        target.len() > 0,
        !crate::text::is_ws(target[0]),
        !crate::text::is_ws(target.last()),
    ensures
        nonblank(target) == Some(target),
{
}

/// After `:model <model>` wrote its model (no whitespace at either end) to
/// the project's model file, the project's runs use that model, whatever
/// OpenClaw selected and whatever is configured.
pub proof fn law_model_override_reads_back(
    model: Seq<char>,
    selected: Option<Seq<char>>,
    configured: Option<Seq<char>>,
)
    requires
        model.len() > 0,
        !crate::text::is_ws(model[0]),
        !crate::text::is_ws(model.last()),
    ensures
        project_model(Some(model), selected, configured) == Some(model),
{
    law_project_cwd_reads_back(model);
}

// ---------------------------------------------------------------------------
// Local replies
// ---------------------------------------------------------------------------

/// A path named in a local command (`:ls`, `:cat`, `:cd`), trimmed and with
/// `~` expanded, taken from the project directory when it is relative.
pub open spec fn project_path_of(target_cwd: Seq<char>, path: Seq<char>, home: Option<Seq<char>>) -> Seq<char> {
    let e = expand_tilde(trim(path), home);
    if e.len() > 0 && e[0] == '/' {
        e
    } else {
        join_path(target_cwd, e)
    }
}

pub fn project_path(target_cwd: &str, path: &str, home: Option<&str>) -> (r: String)
    ensures
        r@ == project_path_of(target_cwd@, path@, opt_str(home)),
{
    let p = str_chars(path);
    let e = expand_tilde_chars(trim_slice(p.as_slice()), home);
    if e.len() > 0 && e[0] == '/' {
        chars_to_string(e.as_slice())
    } else {
        let t = str_chars(target_cwd);
        chars_to_string(join_path_chars(t.as_slice(), e.as_slice()).as_slice())
    }
}

/// The reply to `:cd`.
pub fn cd_message(target: &str) -> (r: String)
    ensures
        r@ == "Codex project directory set to:\n"@ + target@
            + "\nNext Codex request will start a fresh thread for this project."@,
{
    let t = str_chars(target);
    let v = with_lit(
        lit_then("Codex project directory set to:\n", t.as_slice()).as_slice(),
        "\nNext Codex request will start a fresh thread for this project.",
    );
    chars_to_string(v.as_slice())
}

/// The reply to `:model <model>` (`None`: the override was cleared).
pub fn model_set_message(model: Option<&str>, project: &str) -> (r: String)
    ensures
        r@ == match model {
            Some(m) => "Codex model set to `"@ + m@ + "` for this project.\nProject: "@ + project@,
            None => "Codex model override cleared for this project.\nProject: "@ + project@,
        },
{
    let p = str_chars(project);
    let v = match model {
        Some(m) => {
            let mc = str_chars(m);
            let head = with_lit(
                lit_then("Codex model set to `", mc.as_slice()).as_slice(),
                "` for this project.\nProject: ",
            );
            concat2(head.as_slice(), p.as_slice())
        },
        None => lit_then("Codex model override cleared for this project.\nProject: ", p.as_slice()),
    };
    chars_to_string(v.as_slice())
}

/// The reply to `:cat`: the file's path and its text, cut at 20000
/// characters.
pub fn cat_message(path: &str, content: &str) -> (r: String)
    ensures
        r@ == "File: "@ + path@ + "\n\n"@ + weixin_truncated(content@, 20000),
{
    let p = str_chars(path);
    let body = truncate_for_weixin(content, 20000);
    let b = str_chars(body.as_str());
    let head = with_lit(lit_then("File: ", p.as_slice()).as_slice(), "\n\n");
    chars_to_string(concat2(head.as_slice(), b.as_slice()).as_slice())
}

/// `<path> is not a directory`.
pub fn not_a_directory(path: &str) -> (r: String)
    ensures
        r@ == path@ + " is not a directory"@,
{
    let p = str_chars(path);
    chars_to_string(with_lit(p.as_slice(), " is not a directory").as_slice())
}

/// `<path> is not a file`.
pub fn not_a_file(path: &str) -> (r: String)
    ensures
        r@ == path@ + " is not a file"@,
{
    let p = str_chars(path);
    chars_to_string(with_lit(p.as_slice(), " is not a file").as_slice())
}

pub open spec fn ls_line(shown: Seq<char>, is_dir: bool) -> Seq<char> {
    (if is_dir {
        "[dir] "@
    } else {
        "[file]"@
    }) + " "@ + shown
}

/// The lines of `:ls` for entries already in order.
pub open spec fn ls_text(dir: Seq<char>, entries: Seq<(String, (String, bool))>) -> Seq<char> {
    join(
        seq!["Directory: "@ + dir] + if entries.len() == 0 {
            seq!["(empty)"@]
        } else {
            entries.map_values(|e: (String, (String, bool))| ls_line(e.1.0@, e.1.1))
        },
        "\n"@,
    )
}

/// The reply to `:ls`: each entry is its sort key (its path as listed), the
/// path shown and whether it is a directory; they are listed by key.
pub fn ls_message(dir: &str, entries: Vec<(String, (String, bool))>) -> (r: String)
    ensures
        exists|sorted: Seq<(String, (String, bool))>|
            #![trigger ls_text(dir@, sorted)]
            sorted.to_multiset() == entries@.to_multiset() && texts_ascending(keys_of(sorted))
                && r@ == ls_text(dir@, sorted),
{
    let sorted = sort_by_text_key(entries);
    let d = str_chars(dir);
    let mut lines: Vec<Vec<char>> = Vec::new();
    lines.push(lit_then("Directory: ", d.as_slice()));
    let ghost head = words_view(lines@);
    if sorted.len() == 0 {
        lines.push(str_chars("(empty)"));
        proof {
            reveal_strlit("(empty)");
        }
        assert(words_view(lines@) =~= seq!["Directory: "@ + dir@, "(empty)"@]);
    } else {
        let ghost sv = sorted@;
        let mut k: usize = 0;
        while k < sorted.len()
            invariant
                k <= sorted.len(),
                sv == sorted@,
                words_view(lines@) == head + sv.take(k as int).map_values(
                    |e: (String, (String, bool))| ls_line(e.1.0@, e.1.1),
                ),
            decreases sorted.len() - k,
        {
            let e = &sorted[k];
            let s = str_chars(e.1.0.as_str());
            let line = if e.1.1 {
                lit_then("[dir]  ", s.as_slice())
            } else {
                lit_then("[file] ", s.as_slice())
            };
            proof {
                reveal_strlit("[dir]  ");
                reveal_strlit("[file] ");
                reveal_strlit("[dir] ");
                reveal_strlit("[file]");
                reveal_strlit(" ");
                assert(line@ =~= ls_line(e.1.0@, e.1.1));
            }
            let ghost before = words_view(lines@);
            lines.push(line);
            proof {
                assert(words_view(lines@) =~= before.push(ls_line(e.1.0@, e.1.1)));
                assert(sv.take(k + 1) =~= sv.take(k as int).push(sv[k as int]));
                assert(sv.take(k + 1).map_values(|e: (String, (String, bool))| ls_line(e.1.0@, e.1.1))
                    =~= sv.take(k as int).map_values(
                    |e: (String, (String, bool))| ls_line(e.1.0@, e.1.1),
                ).push(ls_line(sv[k as int].1.0@, sv[k as int].1.1)));
            }
            k += 1;
        }
        assert(sv.take(sorted.len() as int) =~= sv);
        assert(head =~= seq!["Directory: "@ + dir@]);
        assert(words_view(lines@) =~= seq!["Directory: "@ + dir@] + sv.map_values(
            |e: (String, (String, bool))| ls_line(e.1.0@, e.1.1),
        ));
    }
    assert(words_view(lines@) =~= seq!["Directory: "@ + dir@] + if sorted@.len() == 0 {
        seq!["(empty)"@]
    } else {
        sorted@.map_values(|e: (String, (String, bool))| ls_line(e.1.0@, e.1.1))
    });
    let r = chars_to_string(join_chars(lines.as_slice(), "\n").as_slice());
    assert(r@ == ls_text(dir@, sorted@));
    r
}

/// The reply when an answer was written for a Codex approval.
pub fn native_decision_message(approval_id: &str, decision: NativeApprovalDecision) -> (r: String)
    ensures
        r@ == match decision {
            NativeApprovalDecision::Approve => "Approved Codex approval "@,
            NativeApprovalDecision::Deny => "Denied Codex approval "@,
        } + approval_id@ + ". Codex will continue in the original turn."@,
{
    let id = str_chars(approval_id);
    let head = match decision {
        NativeApprovalDecision::Approve => lit_then("Approved Codex approval ", id.as_slice()),
        NativeApprovalDecision::Deny => lit_then("Denied Codex approval ", id.as_slice()),
    };
    chars_to_string(with_lit(head.as_slice(), ". Codex will continue in the original turn.").as_slice())
}

/// The reply when no approval has the id.
pub fn approval_not_found_message(approval_id: &str) -> (r: String)
    ensures
        r@ == "Approval "@ + approval_id@ + " was not found."@,
{
    let id = str_chars(approval_id);
    chars_to_string(with_lit(lit_then("Approval ", id.as_slice()).as_slice(), " was not found.").as_slice())
}

/// The reply when a confirmed command is denied.
pub fn custom_denied_message(approval_id: &str) -> (r: String)
    ensures
        r@ == "Denied approval "@ + approval_id@ + "."@,
{
    let id = str_chars(approval_id);
    chars_to_string(with_lit(lit_then("Denied approval ", id.as_slice()).as_slice(), ".").as_slice())
}

/// Which approval an answer (`:approve`, `:deny`, a bare `yes` or `no`) is
/// for: the one it names; else the one Codex approval still waiting; with
/// none or several waiting, the reply that says so.
pub open spec fn target_of(named: Option<Seq<char>>, pending: Seq<Seq<char>>) -> Result<Seq<char>, Seq<char>> {
    match named {
        Some(id) => Ok(id),
        None => if pending.len() == 1 {
            Ok(pending[0])
        } else if pending.len() == 0 {
            Err("No approval is waiting."@)
        } else {
            Err("Several approvals are waiting; answer one with :approve <id> or :deny <id>: "@
                + join(pending, ", "@))
        },
    }
}

pub fn answer_target(named: Option<&str>, pending: &Vec<String>) -> (r: Result<String, String>)
    ensures
        match r {
            Ok(id) => target_of(opt_str(named), strings_view(pending@)) == Ok::<Seq<char>, Seq<char>>(id@),
            Err(e) => target_of(opt_str(named), strings_view(pending@)) == Err::<Seq<char>, Seq<char>>(e@),
        },
{
    let ghost pv = strings_view(pending@);
    match named {
        Some(id) => Ok(id.to_owned()),
        None => {
            if pending.len() == 1 {
                assert(pv[0] == pending@[0]@);
                Ok(pending[0].clone())
            } else if pending.len() == 0 {
                Err("No approval is waiting.".to_owned())
            } else {
                let mut ws: Vec<Vec<char>> = Vec::new();
                let mut i: usize = 0;
                while i < pending.len()
                    invariant
                        i <= pending.len(),
                        pv == strings_view(pending@),
                        words_view(ws@) == pv.take(i as int),
                    decreases pending.len() - i,
                {
                    let w = str_chars(pending[i].as_str());
                    let ghost before = words_view(ws@);
                    ws.push(w);
                    assert(words_view(ws@) =~= before.push(pv[i as int]));
                    assert(pv.take(i + 1) =~= pv.take(i as int).push(pv[i as int]));
                    i += 1;
                }
                assert(pv.take(pending.len() as int) =~= pv);
                let joined = join_chars(ws.as_slice(), ", ");
                let head = str_chars("Several approvals are waiting; answer one with :approve <id> or :deny <id>: ");
                Err(chars_to_string(concat2(head.as_slice(), joined.as_slice()).as_slice()))
            }
        },
    }
}

// ---------------------------------------------------------------------------
// Commands the program runs
// ---------------------------------------------------------------------------

/// The shell that runs a `:shell` command line: `sh -lc <command>`.
pub fn shell_program_and_args(command: &str) -> (r: (&'static str, Vec<String>))
    ensures
        r.0@ == "sh"@,
        strings_view(r.1@) == seq!["-lc"@, command@],
{
    let mut args: Vec<String> = Vec::new();
    args.push("-lc".to_owned());
    args.push(command.to_owned());
    assert(strings_view(args@) =~= seq!["-lc"@, command@]);
    ("sh", args)
}

/// `PATH` for a step: its directories (with `~` expanded), then the current
/// `PATH` when there is one, separated by `:`.
pub open spec fn path_value(paths: Seq<Seq<char>>, home: Option<Seq<char>>, existing: Option<Seq<char>>) -> Seq<char> {
    join(
        paths.map_values(|p: Seq<char>| expand_tilde(p, home)) + match existing {
            Some(e) => seq![e],
            None => Seq::empty(),
        },
        ":"@,
    )
}

pub fn path_with_prepend(paths: &[String], home: Option<&str>, existing: Option<&str>) -> (r: String)
    ensures
        r@ == path_value(strings_view(paths@), opt_str(home), opt_str(existing)),
{
    let ghost pv = strings_view(paths@);
    let mut segments: Vec<Vec<char>> = Vec::new();
    let mut i: usize = 0;
    while i < paths.len()
        invariant
            i <= paths.len(),
            pv == strings_view(paths@),
            words_view(segments@) == pv.take(i as int).map_values(|p: Seq<char>| expand_tilde(p, opt_str(home))),
        decreases paths.len() - i,
    {
        let p = str_chars(paths[i].as_str());
        let e = expand_tilde_chars(p.as_slice(), home);
        let ghost before = words_view(segments@);
        segments.push(e);
        proof {
            assert(words_view(segments@) =~= before.push(expand_tilde(pv[i as int], opt_str(home))));
            assert(pv.take(i + 1) =~= pv.take(i as int).push(pv[i as int]));
            assert(pv.take(i + 1).map_values(|p: Seq<char>| expand_tilde(p, opt_str(home)))
                =~= pv.take(i as int).map_values(|p: Seq<char>| expand_tilde(p, opt_str(home))).push(
                expand_tilde(pv[i as int], opt_str(home)),
            ));
        }
        i += 1;
    }
    assert(pv.take(paths.len() as int) =~= pv);
    let ghost mapped = words_view(segments@);
    match existing {
        Some(e) => {
            segments.push(str_chars(e));
            assert(words_view(segments@) =~= mapped + seq![e@]);
        },
        None => {
            assert(words_view(segments@) =~= mapped + Seq::<Seq<char>>::empty());
        },
    }
    chars_to_string(join_chars(segments.as_slice(), ":").as_slice())
}

/// The line printed before a `codex exec` run.
pub fn codex_exec_display(
    resume_session_id: Option<&str>,
    output_path: &str,
    model: Option<&str>,
    sandbox: &str,
) -> (r: String)
    ensures
        r@ == match resume_session_id {
            Some(_) => "$ codex exec resume --yolo --json -o "@,
            None => "$ codex exec --yolo --json -o "@,
        } + output_path@ + match model {
            Some(m) => " -m "@ + m@,
            None => Seq::empty(),
        } + match resume_session_id {
            Some(s) => " "@ + s@,
            None => " -s "@ + sandbox@,
        },
{
    let o = str_chars(output_path);
    let mut out = match resume_session_id {
        Some(_) => lit_then("$ codex exec resume --yolo --json -o ", o.as_slice()),
        None => lit_then("$ codex exec --yolo --json -o ", o.as_slice()),
    };
    if let Some(m) = model {
        let mc = str_chars(m);
        out = concat2(with_lit(out.as_slice(), " -m ").as_slice(), mc.as_slice());
    }
    match resume_session_id {
        Some(sid) => {
            let sc = str_chars(sid);
            out = concat2(with_lit(out.as_slice(), " ").as_slice(), sc.as_slice());
        },
        None => {
            let sb = str_chars(sandbox);
            out = concat2(with_lit(out.as_slice(), " -s ").as_slice(), sb.as_slice());
        },
    }
    chars_to_string(out.as_slice())
}

// ---------------------------------------------------------------------------
// Finding a Node that OpenClaw supports
// ---------------------------------------------------------------------------

/// Node 22.19.0 or newer.
pub open spec fn node_supported(v: Option<(u64, u64, u64)>) -> bool {
    match v {
        Some((a, b, c)) => a > 22 || (a == 22 && b >= 19),
        None => false,
    }
}

pub fn node_version_supported(v: Option<(u64, u64, u64)>) -> (r: bool)
    ensures
        r == node_supported(v),
{
    match v {
        Some((a, b, _c)) => a > 22 || (a == 22 && b >= 19),
        None => false,
    }
}

pub open spec fn fixed_node_dirs() -> Seq<Seq<char>> {
    seq![
        "/opt/homebrew/opt/node/bin"@,
        "/opt/homebrew/opt/node@24/bin"@,
        "/opt/homebrew/opt/node@22/bin"@,
        "/usr/local/opt/node/bin"@,
        "/usr/local/opt/node@24/bin"@,
        "/usr/local/opt/node@22/bin"@,
    ]
}

pub open spec fn texts_descending(s: Seq<Seq<char>>) -> bool {
    forall|i: int, j: int| 0 <= i < j < s.len() ==> !crate::sessions::seq_lt(#[trigger] s[i], #[trigger] s[j])
}

pub open spec fn version_bin_dirs(root: Seq<char>, names: Seq<Seq<char>>) -> Seq<Seq<char>> {
    names.map_values(|n: Seq<char>| join_path(join_path(root, n), "bin"@))
}

/// The `bin` directories of the versions installed under `root` (the entry
/// names of that directory), newest name first.
pub fn versioned_node_bin_dirs(root: &str, names: Vec<String>) -> (r: Vec<String>)
    ensures
        exists|desc: Seq<Seq<char>>|
            #![trigger version_bin_dirs(root@, desc)]
            desc.to_multiset() == strings_view(names@).to_multiset() && texts_descending(desc)
                && strings_view(r@) == version_bin_dirs(root@, desc),
{
    let asc = crate::sessions::sort_texts(names);
    let ghost av = strings_view(asc@);
    let ghost desc = av.reverse();
    let rc = str_chars(root);
    let bin = str_chars("bin");
    let mut out: Vec<String> = Vec::new();
    let mut k: usize = asc.len();
    while k > 0
        invariant
            k <= asc.len(),
            av == strings_view(asc@),
            desc == av.reverse(),
            rc@ == root@,
            bin@ == "bin"@,
            strings_view(out@) == version_bin_dirs(root@, desc.take(asc.len() - k)),
        decreases k,
    {
        k -= 1;
        let n = str_chars(asc[k].as_str());
        let d = join_path_chars(rc.as_slice(), n.as_slice());
        let p = join_path_chars(d.as_slice(), bin.as_slice());
        let ghost before = strings_view(out@);
        out.push(chars_to_string(p.as_slice()));
        proof {
            let m = asc.len() - k;
            assert(desc[m - 1] == av[k as int]);
            assert(n@ == av[k as int]);
            assert(desc.take(m) =~= desc.take(m - 1).push(desc[m - 1]));
            assert(version_bin_dirs(root@, desc.take(m - 1).push(desc[m - 1])) =~= version_bin_dirs(
                root@,
                desc.take(m - 1),
            ).push(join_path(join_path(root@, desc[m - 1]), "bin"@)));
            assert(strings_view(out@) =~= before.push(p@));
        }
    }
    proof {
        assert(desc.take(asc.len() as int) =~= desc);
        assert forall|i: int, j: int| 0 <= i < j < desc.len() implies !crate::sessions::seq_lt(
            #[trigger] desc[i],
            #[trigger] desc[j],
        ) by {
            assert(desc[i] == av[av.len() - 1 - i]);
            assert(desc[j] == av[av.len() - 1 - j]);
        }
        av.lemma_reverse_to_multiset();
    }
    out
}

/// The directories where a supported Node may be installed, in the order
/// they are tried: Homebrew's, then mise's and nvm's versions (from
/// `versioned_node_bin_dirs`), then Volta's, the last three under the home
/// directory.
pub fn node_bin_dir_candidates(home: Option<&str>, mise_dirs: Vec<String>, nvm_dirs: Vec<String>) -> (r: Vec<
    String,
>)
    ensures
        strings_view(r@) == fixed_node_dirs() + match home {
            Some(h) => strings_view(mise_dirs@) + strings_view(nvm_dirs@) + seq![
                join_path(h@, ".volta/bin"@),
            ],
            None => Seq::empty(),
        },
{
    let mut out: Vec<String> = Vec::new();
    out.push("/opt/homebrew/opt/node/bin".to_owned());
    out.push("/opt/homebrew/opt/node@24/bin".to_owned());
    out.push("/opt/homebrew/opt/node@22/bin".to_owned());
    out.push("/usr/local/opt/node/bin".to_owned());
    out.push("/usr/local/opt/node@24/bin".to_owned());
    out.push("/usr/local/opt/node@22/bin".to_owned());
    assert(strings_view(out@) =~= fixed_node_dirs());
    match home {
        Some(h) => {
            let ghost f = strings_view(out@);
            let mut m = mise_dirs;
            let mut n = nvm_dirs;
            let ghost mv = strings_view(m@);
            let ghost nv = strings_view(n@);
            out.append(&mut m);
            assert(strings_view(out@) =~= f + mv);
            out.append(&mut n);
            assert(strings_view(out@) =~= f + mv + nv);
            let hc = str_chars(h);
            let v = str_chars(".volta/bin");
            let volta = chars_to_string(join_path_chars(hc.as_slice(), v.as_slice()).as_slice());
            let ghost before = strings_view(out@);
            out.push(volta);
            assert(strings_view(out@) =~= before.push(join_path(h@, ".volta/bin"@)));
            assert(strings_view(out@) =~= f + (mv + nv + seq![join_path(h@, ".volta/bin"@)]));
        },
        None => {
            assert(strings_view(out@) =~= fixed_node_dirs() + Seq::<Seq<char>>::empty());
        },
    }
    out
}

/// The first probed directory whose Node is supported.
pub open spec fn first_supported(probed: Seq<(Seq<char>, Option<(u64, u64, u64)>)>) -> Option<Seq<char>>
    decreases probed.len(),
{
    if probed.len() == 0 {
        None
    } else if node_supported(probed[0].1) {
        Some(probed[0].0)
    } else {
        first_supported(probed.drop_first())
    }
}

/// The Node directory to put first on `PATH` when steps run: the configured
/// one; none when the Node on `PATH` is supported; else the first candidate
/// (with the version its `node --version` reported) whose Node is supported.
pub open spec fn node_dir_choice(
    configured: Option<Seq<char>>,
    home: Option<Seq<char>>,
    path_node: Option<(u64, u64, u64)>,
    probed: Seq<(Seq<char>, Option<(u64, u64, u64)>)>,
) -> Option<Seq<char>> {
    match configured {
        Some(c) => Some(expand_tilde(c, home)),
        None => if node_supported(path_node) {
            None
        } else {
            first_supported(probed)
        },
    }
}

pub fn choose_node_bin_dir(
    configured: &Option<String>,
    home: Option<&str>,
    path_node_version: Option<(u64, u64, u64)>,
    probed: &[(String, Option<(u64, u64, u64)>)],
) -> (r: Option<String>)
    ensures
        opt_string(r) == node_dir_choice(
            opt_string(*configured),
            opt_str(home),
            path_node_version,
            probed@.map_values(|e: (String, Option<(u64, u64, u64)>)| (e.0@, e.1)),
        ),
{
    if let Some(c) = configured {
        let cc = str_chars(c.as_str());
        return Some(chars_to_string(expand_tilde_chars(cc.as_slice(), home).as_slice()));
    }
    if node_version_supported(path_node_version) {
        return None;
    }
    let ghost pv = probed@.map_values(|e: (String, Option<(u64, u64, u64)>)| (e.0@, e.1));
    let mut i: usize = 0;
    assert(pv.skip(0) =~= pv);
    while i < probed.len()
        invariant
            i <= probed.len(),
            pv == probed@.map_values(|e: (String, Option<(u64, u64, u64)>)| (e.0@, e.1)),
            first_supported(pv) == first_supported(pv.skip(i as int)),
            *configured is None,
            !node_supported(path_node_version),
        decreases probed.len() - i,
    {
        assert(pv.skip(i as int).drop_first() =~= pv.skip(i + 1));
        assert(pv.skip(i as int)[0] == pv[i as int]);
        if node_version_supported(probed[i].1) {
            let found = probed[i].0.clone();
            assert(found@ == pv[i as int].0);
            assert(node_supported(pv[i as int].1));
            assert(first_supported(pv.skip(i as int)) == Some(pv[i as int].0));
            assert(first_supported(pv) == Some(found@));
            return Some(found);
        }
        i += 1;
    }
    None
}

// ---------------------------------------------------------------------------
// `:resume`
// ---------------------------------------------------------------------------

/// The first position of a session with the id.
pub open spec fn session_index(sessions: Seq<CodexSessionSummary>, id: Seq<char>) -> Option<int>
    decreases sessions.len(),
{
    if sessions.len() == 0 {
        None
    } else if sessions.last().id@ == id {
        match session_index(sessions.drop_last(), id) {
            Some(k) => Some(k),
            None => Some(sessions.len() - 1),
        }
    } else {
        session_index(sessions.drop_last(), id)
    }
}

pub open spec fn bare_session(id: Seq<char>, s: CodexSessionSummary) -> bool {
    s.id@ == id && s.timestamp@.len() == 0 && s.cwd@.len() == 0 && s.originator@.len() == 0
        && s.title@.len() == 0 && s.initial_prompt@.len() == 0
}

proof fn lemma_session_index_bounds(sessions: Seq<CodexSessionSummary>, id: Seq<char>)
    ensures
        session_index(sessions, id) matches Some(k) ==> 0 <= k < sessions.len() && sessions[k].id@ == id,
        session_index(sessions, id) is None ==> forall|k: int| 0 <= k < sessions.len() ==> (#[trigger] sessions[k]).id@ != id,
    decreases sessions.len(),
{
    if sessions.len() > 0 {
        lemma_session_index_bounds(sessions.drop_last(), id);
        assert forall|k: int| 0 <= k < sessions.len() - 1 implies sessions.drop_last()[k] == #[trigger] sessions[k] by {}
    }
}

/// The session that `:resume` binds, from the listed sessions (newest
/// first): the one with the id (a session known only by its id when none
/// has it), else the newest.
pub fn select_resume_session(sessions: Vec<CodexSessionSummary>, session_id: Option<&str>) -> (r: Result<
    CodexSessionSummary,
    String,
>)
    ensures
        match session_id {
            Some(id) => r matches Ok(s) && match session_index(sessions@, id@) {
                Some(k) => s == sessions@[k],
                None => bare_session(id@, s),
            },
            None => if sessions@.len() > 0 {
                r == Ok::<CodexSessionSummary, String>(sessions@[0])
            } else {
                r matches Err(e) && e@
                    == "No Codex sessions found. Run Codex once first, or pass `:resume <session_id>`."@
            },
        },
{
    let mut list = sessions;
    match session_id {
        Some(id) => {
            let ghost sv = list@;
            proof {
                lemma_session_index_bounds(sv, id@);
            }
            let mut i: usize = 0;
            while i < list.len()
                invariant
                    i <= list.len(),
                    list@ == sv,
                    sv == sessions@,
                    session_id == Some(id),
                    forall|k: int| 0 <= k < i ==> (#[trigger] sv[k]).id@ != id@,
                decreases list.len() - i,
            {
                let sid = str_chars(list[i].id.as_str());
                let want = str_chars(id);
                if crate::text::eq_slices(sid.as_slice(), want.as_slice()) {
                    proof {
                        lemma_first_index(sv, id@, i as int);
                    }
                    let found = list.remove(i);
                    assert(found == sv[i as int]);
                    assert(session_index(sv, id@) == Some(i as int));
                    return Ok(found);
                }
                i += 1;
            }
            proof {
                lemma_no_index(sv, id@);
            }
            Ok(
                CodexSessionSummary {
                    id: id.to_owned(),
                    timestamp: String::new(),
                    cwd: String::new(),
                    originator: String::new(),
                    title: String::new(),
                    initial_prompt: String::new(),
                },
            )
        },
        None => {
            if list.len() > 0 {
                Ok(list.remove(0))
            } else {
                Err(
                    "No Codex sessions found. Run Codex once first, or pass `:resume <session_id>`.".to_owned(),
                )
            }
        },
    }
}

proof fn lemma_first_index(sessions: Seq<CodexSessionSummary>, id: Seq<char>, i: int)
    requires
        0 <= i < sessions.len(),
        sessions[i].id@ == id,
        forall|k: int| 0 <= k < i ==> (#[trigger] sessions[k]).id@ != id,
    ensures
        session_index(sessions, id) == Some(i),
    decreases sessions.len(),
{
    if i < sessions.len() - 1 {
        let d = sessions.drop_last();
        assert forall|k: int| 0 <= k < i implies (#[trigger] d[k]).id@ != id by {
            assert(d[k] == sessions[k]);
        }
        assert(d[i] == sessions[i]);
        lemma_first_index(d, id, i);
    } else {
        lemma_no_index_prefix(sessions.drop_last(), id, sessions);
    }
}

proof fn lemma_no_index_prefix(d: Seq<CodexSessionSummary>, id: Seq<char>, s: Seq<CodexSessionSummary>)
    requires
        d == s.drop_last(),
        s.len() > 0,
        forall|k: int| 0 <= k < s.len() - 1 ==> (#[trigger] s[k]).id@ != id,
    ensures
        session_index(d, id) is None,
{
    assert forall|k: int| 0 <= k < d.len() implies (#[trigger] d[k]).id@ != id by {
        assert(d[k] == s[k]);
    }
    lemma_no_index(d, id);
}

proof fn lemma_no_index(sessions: Seq<CodexSessionSummary>, id: Seq<char>)
    requires
        forall|k: int| 0 <= k < sessions.len() ==> (#[trigger] sessions[k]).id@ != id,
    ensures
        session_index(sessions, id) is None,
    decreases sessions.len(),
{
    if sessions.len() > 0 {
        let d = sessions.drop_last();
        assert forall|k: int| 0 <= k < d.len() implies (#[trigger] d[k]).id@ != id by {
            assert(d[k] == sessions[k]);
        }
        lemma_no_index(d, id);
        assert(sessions.last() == sessions[sessions.len() - 1]);
    }
}

/// A path under the home directory written with `~`.
pub open spec fn home_compact(value: Seq<char>, home: Option<Seq<char>>) -> Seq<char> {
    match home {
        None => value,
        Some(h) => if value == h {
            "~"@
        } else if starts_with(value, h + "/"@) {
            "~/"@ + value.skip(h.len() + 1int)
        } else {
            value
        },
    }
}

pub fn compact_home_path(value: &str, home: Option<&str>) -> (r: String)
    ensures
        r@ == home_compact(value@, opt_str(home)),
{
    match home {
        None => value.to_owned(),
        Some(h) => {
            let v = str_chars(value);
            let hc = str_chars(h);
            if crate::text::eq_slices(v.as_slice(), hc.as_slice()) {
                return "~".to_owned();
            }
            let prefix = with_lit(hc.as_slice(), "/");
            proof {
                reveal_strlit("/");
            }
            if crate::text::starts_with_slice(v.as_slice(), prefix.as_slice()) {
                let rest = &v.as_slice()[prefix.len()..v.len()];
                assert(rest@ =~= v@.skip(h@.len() + 1int));
                chars_to_string(lit_then("~/", rest).as_slice())
            } else {
                value.to_owned()
            }
        },
    }
}

// ---------------------------------------------------------------------------
// Child processes
// ---------------------------------------------------------------------------

/// The pids that `pgrep -P` listed from position `i` on: one per line, each
/// positive and not `self_pid`; other lines are skipped.
pub open spec fn listed_pids(s: Seq<char>, i: int, self_pid: u32) -> Seq<u32>
    decreases s.len() - i,
{
    if i < 0 || i >= s.len() {
        Seq::empty()
    } else {
        let e = crate::text::line_end(s, i);
        let rest = if e < s.len() {
            proof {
                crate::text::lemma_line_end(s, i);
            }
            listed_pids(s, e + 1, self_pid)
        } else {
            Seq::empty()
        };
        match crate::run_lock::parse_u32(trim(s.subrange(i, e))) {
            Some(p) => if p > 0 && p != self_pid {
                seq![p] + rest
            } else {
                rest
            },
            None => rest,
        }
    }
}

pub fn child_pids_from_listing(listing: &str, self_pid: u32) -> (r: Vec<u32>)
    ensures
        r@ == listed_pids(listing@, 0, self_pid),
{
    let s = str_chars(listing);
    let n = s.len();
    let mut out: Vec<u32> = Vec::new();
    let mut i: usize = 0;
    assert(out@ + listed_pids(s@, 0, self_pid) =~= listed_pids(s@, 0, self_pid));
    while i < n
        invariant
            i <= n,
            n == s@.len(),
            s@ == listing@,
            out@ + listed_pids(s@, i as int, self_pid) == listed_pids(s@, 0, self_pid),
        decreases n - i,
    {
        proof {
            crate::text::lemma_line_end(s@, i as int);
        }
        let e = crate::text::line_end_exec(s.as_slice(), i);
        let line = &s.as_slice()[i..e];
        assert(line@ =~= s@.subrange(i as int, e as int));
        let ghost rest = if e < n {
            listed_pids(s@, e + 1, self_pid)
        } else {
            Seq::empty()
        };
        let parsed = crate::run_lock::parse_u32_chars(trim_slice(line));
        match parsed {
            Some(p) => {
                if p > 0 && p != self_pid {
                    out.push(p);
                    assert(out@ + rest =~= out@.drop_last() + (seq![p] + rest));
                }
            },
            None => {},
        }
        if e < n {
            i = e + 1;
        } else {
            assert(listed_pids(s@, n as int, self_pid) =~= Seq::<u32>::empty());
            assert(out@ + rest =~= out@);
            i = n;
            assert(out@ + listed_pids(s@, i as int, self_pid) =~= out@);
        }
    }
    assert(listed_pids(s@, n as int, self_pid) =~= Seq::<u32>::empty());
    assert(out@ + listed_pids(s@, n as int, self_pid) =~= out@);
    out
}

} // verus!
