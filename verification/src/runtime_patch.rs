//! The changes wecode makes to OpenClaw's installed JavaScript, as text
//! transformations of a file's content.  The program finds the files,
//! reads them and writes back what these functions return.
use crate::text::{
    chars_to_string, concat2, contains, find, find_from, lemma_find_from_props, lit_then,
    matches_at, replace, replace_from, replace_slice, str_chars, with_lit,
};
use vstd::prelude::*;

verus! {

/// OpenClaw's check that lets text commands through on native surfaces.
pub const TEXT_ROUTING_ORIGINAL: &'static str = r#"function shouldHandleTextCommands(params) {
	if (params.commandSource === "native") return true;
	if (params.cfg.commands?.text !== false) return true;
	return !isNativeCommandSurface(params.surface);
}"#;

/// An earlier wecode version of the check.
pub const TEXT_ROUTING_LEGACY_PATCHED: &'static str = r#"function shouldHandleTextCommands(params) {
	if (params.commandSource === "native") return true;
	return params.cfg.commands?.text !== false;
}"#;

/// The check that honours `commands.text = false` everywhere.
pub const TEXT_ROUTING_PATCHED: &'static str = r#"function shouldHandleTextCommands(params) {
	return params.cfg.commands?.text !== false;
}"#;

/// OpenClaw's built-in `/compact` handler.
pub const COMPACT_ORIGINAL: &'static str = r#"const handleCompactCommand = async (params) => {
	if (!(params.command.commandBodyNormalized === "/compact" || params.command.commandBodyNormalized.startsWith("/compact "))) return null;"#;

/// The handler that steps aside when text commands are off.
pub const COMPACT_PATCHED: &'static str = r#"const handleCompactCommand = async (params) => {
	if (params.cfg.commands?.text === false) return null;
	if (!(params.command.commandBodyNormalized === "/compact" || params.command.commandBodyNormalized.startsWith("/compact "))) return null;"#;

pub const AGENT_EVENTS_IMPORT: &'static str = r#"import { i as emitAgentEvent } from "./agent-events-BuYtWSh4.js";"#;

pub const DIAGNOSTIC_IMPORT: &'static str = r#"import { a as emitTrustedDiagnosticEvent } from "./diagnostic-events-CNGydBWO.js";"#;

/// The CLI runner's stdout handler.
pub const ORIGINAL_STDOUT: &'static str = r#"onStdout: (chunk) => {
						stdoutTail = appendCliOutputTail(stdoutTail, chunk);
						if (!stdoutParseExceeded) {
							const nextStdoutParse = appendCliOutputParseBuffer(stdoutParseBuffer, chunk);
							stdoutParseBuffer = nextStdoutParse.buffer;
							stdoutParseExceeded = nextStdoutParse.exceeded;
						}
						streamingParser?.push(chunk);
					},"#;

/// The handler that also reports progress on every chunk of output.
pub const PATCHED_STDOUT: &'static str = r#"onStdout: (chunk) => {
						emitTrustedDiagnosticEvent({
							type: "run.progress",
							runId: params.runId,
							sessionId: params.sessionId,
							...(params.sessionKey ? { sessionKey: params.sessionKey } : {}),
							reason: "cli:stdout"
						});
						stdoutTail = appendCliOutputTail(stdoutTail, chunk);
						if (!stdoutParseExceeded) {
							const nextStdoutParse = appendCliOutputParseBuffer(stdoutParseBuffer, chunk);
							stdoutParseBuffer = nextStdoutParse.buffer;
							stdoutParseExceeded = nextStdoutParse.exceeded;
						}
						streamingParser?.push(chunk);
					},"#;

/// What patching does to one file.
pub enum Outcome {
    /// The file already has the change.
    Unchanged,
    /// The file's new content.
    Rewritten(Seq<char>),
    /// The file does not have the code the patch expects.
    Unrecognized,
}

/// The result of patching one file.
pub enum FilePatch {
    Unchanged,
    Rewritten(String),
    Unrecognized,
}

pub open spec fn file_patch_view(p: FilePatch) -> Outcome {
    match p {
        FilePatch::Unchanged => Outcome::Unchanged,
        FilePatch::Rewritten(s) => Outcome::Rewritten(s@),
        FilePatch::Unrecognized => Outcome::Unrecognized,
    }
}

/// `s` with `from` replaced by `to`, or `None` when `from` does not occur.
pub open spec fn replaced(s: Seq<char>, from: Seq<char>, to: Seq<char>) -> Option<Seq<char>> {
    if from.len() > 0 && contains(s, from) {
        Some(replace(s, from, to))
    } else {
        None
    }
}

fn replace_lit(s: &[char], from: &str, to: &str) -> (r: Option<Vec<char>>)
    ensures
        match r {
            Some(v) => replaced(s@, from@, to@) == Some(v@),
            None => replaced(s@, from@, to@) is None,
        },
{
    let f = str_chars(from);
    let t = str_chars(to);
    if f.len() > 0 && crate::text::contains_slice(s, f.as_slice()) {
        Some(replace_slice(s, f.as_slice(), t.as_slice()))
    } else {
        None
    }
}

// ---------------------------------------------------------------------------
// Text command routing
// ---------------------------------------------------------------------------

pub open spec fn text_routing_outcome(s: Seq<char>) -> Outcome {
    if contains(s, TEXT_ROUTING_PATCHED@) {
        Outcome::Unchanged
    } else if replaced(s, TEXT_ROUTING_ORIGINAL@, TEXT_ROUTING_PATCHED@) is Some {
        Outcome::Rewritten(replaced(s, TEXT_ROUTING_ORIGINAL@, TEXT_ROUTING_PATCHED@)->0)
    } else if replaced(s, TEXT_ROUTING_LEGACY_PATCHED@, TEXT_ROUTING_PATCHED@) is Some {
        Outcome::Rewritten(replaced(s, TEXT_ROUTING_LEGACY_PATCHED@, TEXT_ROUTING_PATCHED@)->0)
    } else {
        Outcome::Unrecognized
    }
}

/// Makes OpenClaw honour `commands.text = false` on every surface, so that
/// `:` commands reach wecode.
pub fn patch_text_routing_source(source: &str) -> (r: FilePatch)
    ensures
        file_patch_view(r) == text_routing_outcome(source@),
{
    let s = str_chars(source);
    if crate::text::lit_contains(s.as_slice(), TEXT_ROUTING_PATCHED) {
        return FilePatch::Unchanged;
    }
    match replace_lit(s.as_slice(), TEXT_ROUTING_ORIGINAL, TEXT_ROUTING_PATCHED) {
        Some(v) => {
            return FilePatch::Rewritten(chars_to_string(v.as_slice()));
        },
        None => {},
    }
    match replace_lit(s.as_slice(), TEXT_ROUTING_LEGACY_PATCHED, TEXT_ROUTING_PATCHED) {
        Some(v) => FilePatch::Rewritten(chars_to_string(v.as_slice())),
        None => FilePatch::Unrecognized,
    }
}

// ---------------------------------------------------------------------------
// The built-in /compact command
// ---------------------------------------------------------------------------

pub open spec fn compact_outcome(s: Seq<char>) -> Outcome {
    if contains(s, COMPACT_PATCHED@) {
        Outcome::Unchanged
    } else if replaced(s, COMPACT_ORIGINAL@, COMPACT_PATCHED@) is Some {
        Outcome::Rewritten(replaced(s, COMPACT_ORIGINAL@, COMPACT_PATCHED@)->0)
    } else {
        Outcome::Unrecognized
    }
}

/// Makes OpenClaw's own `/compact` step aside when text commands are off.
pub fn patch_compact_source(source: &str) -> (r: FilePatch)
    ensures
        file_patch_view(r) == compact_outcome(source@),
{
    let s = str_chars(source);
    if crate::text::lit_contains(s.as_slice(), COMPACT_PATCHED) {
        return FilePatch::Unchanged;
    }
    match replace_lit(s.as_slice(), COMPACT_ORIGINAL, COMPACT_PATCHED) {
        Some(v) => FilePatch::Rewritten(chars_to_string(v.as_slice())),
        None => FilePatch::Unrecognized,
    }
}

// ---------------------------------------------------------------------------
// Progress on CLI output
// ---------------------------------------------------------------------------

pub open spec fn tabs_as_spaces(s: Seq<char>) -> Seq<char> {
    replace(s, seq!['\t'], "    "@)
}

/// The CLI runner with the diagnostic import and the progress report, or
/// the part that could not be found.
pub open spec fn cli_progress_patch(s: Seq<char>) -> Result<Seq<char>, Seq<char>> {
    let with_import = if contains(s, DIAGNOSTIC_IMPORT@) {
        Some(s)
    } else {
        replaced(s, AGENT_EVENTS_IMPORT@, AGENT_EVENTS_IMPORT@ + "\n"@ + DIAGNOSTIC_IMPORT@)
    };
    match with_import {
        None => Err("agent event import"@),
        Some(t) => if contains(t, "reason: \"cli:stdout\""@) {
            Ok(t)
        } else if replaced(t, ORIGINAL_STDOUT@, PATCHED_STDOUT@) is Some {
            Ok(replaced(t, ORIGINAL_STDOUT@, PATCHED_STDOUT@)->0)
        } else if replaced(t, tabs_as_spaces(ORIGINAL_STDOUT@), tabs_as_spaces(PATCHED_STDOUT@)) is Some {
            Ok(replaced(t, tabs_as_spaces(ORIGINAL_STDOUT@), tabs_as_spaces(PATCHED_STDOUT@))->0)
        } else {
            Err("stdout handler"@)
        },
    }
}

fn tabs_to_spaces(s: &str) -> (r: Vec<char>)
    ensures
        r@ == tabs_as_spaces(s@),
{
    let c = str_chars(s);
    let tab = ['\t'];
    let spaces = str_chars("    ");
    assert(tab@ =~= seq!['\t']);
    replace_slice(c.as_slice(), &tab, spaces.as_slice())
}

/// Makes OpenClaw's CLI runner report progress on every chunk of stdout, so
/// that long Codex turns do not trip the no-output watchdog.  The error
/// names what was not found in the file at `path`.
pub fn patch_cli_stdout_progress_source(source: &str, path: &str) -> (r: Result<String, String>)
    ensures
        match cli_progress_patch(source@) {
            Ok(t) => r matches Ok(v) && v@ == t,
            Err(what) => r matches Err(e) && e@ == "unsupported OpenClaw CLI runtime format; "@
                + what + " not found in "@ + path@,
        },
{
    let s = str_chars(source);
    let t: Vec<char> = if crate::text::lit_contains(s.as_slice(), DIAGNOSTIC_IMPORT) {
        s
    } else {
        let a = str_chars(AGENT_EVENTS_IMPORT);
        let both = with_lit(with_lit(a.as_slice(), "\n").as_slice(), DIAGNOSTIC_IMPORT);
        let fc = str_chars(AGENT_EVENTS_IMPORT);
        if fc.len() > 0 && crate::text::contains_slice(s.as_slice(), fc.as_slice()) {
            replace_slice(s.as_slice(), fc.as_slice(), both.as_slice())
        } else {
            let p = str_chars(path);
            let msg = lit_then(
                "unsupported OpenClaw CLI runtime format; agent event import not found in ",
                p.as_slice(),
            );
            proof {
                assert(msg@ =~= "unsupported OpenClaw CLI runtime format; "@ + "agent event import"@
                    + " not found in "@ + path@) by {
                    reveal_strlit("unsupported OpenClaw CLI runtime format; agent event import not found in ");
                    reveal_strlit("unsupported OpenClaw CLI runtime format; ");
                    reveal_strlit("agent event import");
                    reveal_strlit(" not found in ");
                }
            }
            return Err(chars_to_string(msg.as_slice()));
        }
    };
    if crate::text::lit_contains(t.as_slice(), "reason: \"cli:stdout\"") {
        return Ok(chars_to_string(t.as_slice()));
    }
    match replace_lit(t.as_slice(), ORIGINAL_STDOUT, PATCHED_STDOUT) {
        Some(v) => {
            return Ok(chars_to_string(v.as_slice()));
        },
        None => {},
    }
    let from = tabs_to_spaces(ORIGINAL_STDOUT);
    let to = tabs_to_spaces(PATCHED_STDOUT);
    if from.len() > 0 && crate::text::contains_slice(t.as_slice(), from.as_slice()) {
        Ok(chars_to_string(replace_slice(t.as_slice(), from.as_slice(), to.as_slice()).as_slice()))
    } else {
        let p = str_chars(path);
        let msg = lit_then(
            "unsupported OpenClaw CLI runtime format; stdout handler not found in ",
            p.as_slice(),
        );
        proof {
            assert(msg@ =~= "unsupported OpenClaw CLI runtime format; "@ + "stdout handler"@
                + " not found in "@ + path@) by {
                reveal_strlit("unsupported OpenClaw CLI runtime format; stdout handler not found in ");
                reveal_strlit("unsupported OpenClaw CLI runtime format; ");
                reveal_strlit("stdout handler");
                reveal_strlit(" not found in ");
            }
        }
        Err(chars_to_string(msg.as_slice()))
    }
}

// ---------------------------------------------------------------------------
// Which files, and which one to write
// ---------------------------------------------------------------------------

pub open spec fn dist_file(name: Seq<char>, prefix: Seq<char>) -> bool {
    crate::text::starts_with(name, prefix) && crate::text::ends_with(name, ".js"@)
}

/// A `commands-text-routing-*.js` file of OpenClaw's `dist`.
pub fn is_text_routing_file(name: &str) -> (r: bool)
    ensures
        r == dist_file(name@, "commands-text-routing-"@),
{
    let n = str_chars(name);
    let e = str_chars(".js");
    crate::text::lit_starts(n.as_slice(), "commands-text-routing-") && crate::text::ends_with_slice(
        n.as_slice(),
        e.as_slice(),
    )
}

/// A `commands-handlers.runtime-*.js` file of OpenClaw's `dist`.
pub fn is_commands_handlers_file(name: &str) -> (r: bool)
    ensures
        r == dist_file(name@, "commands-handlers.runtime-"@),
{
    let n = str_chars(name);
    let e = str_chars(".js");
    crate::text::lit_starts(n.as_slice(), "commands-handlers.runtime-")
        && crate::text::ends_with_slice(n.as_slice(), e.as_slice())
}

/// An `execute.runtime-*.js` file of OpenClaw's `dist`.
pub fn is_cli_runtime_file(name: &str) -> (r: bool)
    ensures
        r == dist_file(name@, "execute.runtime-"@),
{
    let n = str_chars(name);
    let e = str_chars(".js");
    crate::text::lit_starts(n.as_slice(), "execute.runtime-") && crate::text::ends_with_slice(
        n.as_slice(),
        e.as_slice(),
    )
}

pub open spec fn file_views(files: Seq<(String, String)>) -> Seq<(Seq<char>, Seq<char>)> {
    files.map_values(|f: (String, String)| (f.0@, f.1@))
}

/// The first file (in the given order) that the patch recognises: `None`
/// when none does; then `None` when it is already patched, else its path
/// and new text.
pub open spec fn first_patch(
    files: Seq<(Seq<char>, Seq<char>)>,
    outcome: spec_fn(Seq<char>) -> Outcome,
) -> Option<Option<(Seq<char>, Seq<char>)>>
    decreases files.len(),
{
    if files.len() == 0 {
        None
    } else {
        match outcome(files[0].1) {
            Outcome::Unchanged => Some(None),
            Outcome::Rewritten(t) => Some(Some((files[0].0, t))),
            Outcome::Unrecognized => first_patch(files.drop_first(), outcome),
        }
    }
}

pub open spec fn plan_view(r: Option<(String, String)>) -> Option<(Seq<char>, Seq<char>)> {
    match r {
        Some(p) => Some((p.0@, p.1@)),
        None => None,
    }
}

/// Sorted by path, the first of `files` that `patch` recognises.
fn first_patch_exec(files: &Vec<(String, String)>, routing: bool) -> (r: Option<Option<(String, String)>>)
    ensures
        match r {
            Some(p) => first_patch(
                file_views(files@),
                if routing {
                    |s: Seq<char>| text_routing_outcome(s)
                } else {
                    |s: Seq<char>| compact_outcome(s)
                },
            ) == Some(plan_view(p)),
            None => first_patch(
                file_views(files@),
                if routing {
                    |s: Seq<char>| text_routing_outcome(s)
                } else {
                    |s: Seq<char>| compact_outcome(s)
                },
            ) is None,
        },
{
    let ghost outcome = if routing {
        |s: Seq<char>| text_routing_outcome(s)
    } else {
        |s: Seq<char>| compact_outcome(s)
    };
    let ghost fv = file_views(files@);
    let mut i: usize = 0;
    assert(fv.skip(0) =~= fv);
    while i < files.len()
        invariant
            i <= files.len(),
            fv == file_views(files@),
            outcome == (if routing {
                |s: Seq<char>| text_routing_outcome(s)
            } else {
                |s: Seq<char>| compact_outcome(s)
            }),
            first_patch(fv, outcome) == first_patch(fv.skip(i as int), outcome),
        decreases files.len() - i,
    {
        assert(fv.skip(i as int).drop_first() =~= fv.skip(i + 1));
        assert(fv.skip(i as int)[0] == (files@[i as int].0@, files@[i as int].1@));
        let p = if routing {
            patch_text_routing_source(files[i].1.as_str())
        } else {
            patch_compact_source(files[i].1.as_str())
        };
        assert(file_patch_view(p) == outcome(files@[i as int].1@));
        match p {
            FilePatch::Unchanged => {
                return Some(None);
            },
            FilePatch::Rewritten(t) => {
                let path = files[i].0.clone();
                return Some(Some((path, t)));
            },
            FilePatch::Unrecognized => {},
        }
        i += 1;
    }
    None
}

/// What to write for the text routing: among the `commands-text-routing`
/// files (path and text), by path, the first one that is already patched
/// (nothing to write) or that the patch rewrites.
pub fn text_routing_plan(dist_dir: &str, files: Vec<(String, String)>) -> (r: Result<
    Option<(String, String)>,
    String,
>)
    ensures
        files@.len() == 0 ==> (r matches Err(e) && e@
            == "OpenClaw commands text routing file not found in "@ + dist_dir@),
        files@.len() > 0 ==> exists|sorted: Seq<(String, String)>|
            #![trigger file_views(sorted)]
            sorted.to_multiset() == files@.to_multiset() && crate::sessions::texts_ascending(
                crate::sessions::keys_of(sorted),
            ) && match first_patch(file_views(sorted), |s: Seq<char>| text_routing_outcome(s)) {
                Some(p) => r matches Ok(q) && plan_view(q) == p,
                None => r matches Err(e) && e@
                    == "unsupported OpenClaw commands text routing format; expected text command fallback was not found"@,
            },
{
    if files.len() == 0 {
        let d = str_chars(dist_dir);
        return Err(chars_to_string(lit_then("OpenClaw commands text routing file not found in ", d.as_slice()).as_slice()));
    }
    let sorted = crate::sessions::sort_by_text_key(files);
    proof {
        vstd::seq_lib::to_multiset_len(sorted@);
        vstd::seq_lib::to_multiset_len(files@);
    }
    match first_patch_exec(&sorted, true) {
        Some(p) => Ok(p),
        None => Err(
            "unsupported OpenClaw commands text routing format; expected text command fallback was not found".to_owned(),
        ),
    }
}

/// What to write for the `/compact` handler: nothing when there is no
/// `commands-handlers.runtime` file; else as for the text routing.
pub fn compact_plan(files: Vec<(String, String)>) -> (r: Result<Option<(String, String)>, String>)
    ensures
        files@.len() == 0 ==> r == Ok::<Option<(String, String)>, String>(None),
        files@.len() > 0 ==> exists|sorted: Seq<(String, String)>|
            #![trigger file_views(sorted)]
            sorted.to_multiset() == files@.to_multiset() && crate::sessions::texts_ascending(
                crate::sessions::keys_of(sorted),
            ) && match first_patch(file_views(sorted), |s: Seq<char>| compact_outcome(s)) {
                Some(p) => r matches Ok(q) && plan_view(q) == p,
                None => r matches Err(e) && e@
                    == "unsupported OpenClaw commands handler format; expected /compact command handler was not found"@,
            },
{
    if files.len() == 0 {
        return Ok(None);
    }
    let sorted = crate::sessions::sort_by_text_key(files);
    proof {
        vstd::seq_lib::to_multiset_len(sorted@);
        vstd::seq_lib::to_multiset_len(files@);
    }
    match first_patch_exec(&sorted, false) {
        Some(p) => Ok(p),
        None => Err(
            "unsupported OpenClaw commands handler format; expected /compact command handler was not found".to_owned(),
        ),
    }
}

// ---------------------------------------------------------------------------
// Laws
// ---------------------------------------------------------------------------

/// Patching the routing a second time changes nothing.
pub proof fn law_text_routing_patch_idempotent(s: Seq<char>)
    requires
        text_routing_outcome(s) is Rewritten,
    ensures
        text_routing_outcome(text_routing_outcome(s)->Rewritten_0) is Unchanged,
{
    if replaced(s, TEXT_ROUTING_ORIGINAL@, TEXT_ROUTING_PATCHED@) is Some {
        crate::text::lemma_replace_contains(s, TEXT_ROUTING_ORIGINAL@, TEXT_ROUTING_PATCHED@);
    } else {
        crate::text::lemma_replace_contains(s, TEXT_ROUTING_LEGACY_PATCHED@, TEXT_ROUTING_PATCHED@);
    }
}

/// Patching the `/compact` handler a second time changes nothing.
pub proof fn law_compact_patch_idempotent(s: Seq<char>)
    requires
        compact_outcome(s) is Rewritten,
    ensures
        compact_outcome(compact_outcome(s)->Rewritten_0) is Unchanged,
{
    crate::text::lemma_replace_contains(s, COMPACT_ORIGINAL@, COMPACT_PATCHED@);
}

} // verus!
