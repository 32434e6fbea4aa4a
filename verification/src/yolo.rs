//! The per-project "yolo" switch: where it is kept and how its file reads.
use crate::config::WecodeConfig;
use crate::paths::{expand_tilde, expand_tilde_chars, join_path, join_path_chars};
use crate::run_lock::{fnv1a, hex_fixed, stable_key_hash};
use crate::text::{
    ascii_lower, ascii_lower_slice, chars_to_string, lit_eq, lit_then, str_chars, trim, trim_slice,
    with_lit,
};
use vstd::prelude::*;
use vstd::string::StringSliceAdditionalSpecFns;

verus! {

/// Whether a yolo state file's text means "on": `true`, `on` or `1`,
/// ignoring case and surrounding whitespace.
pub open spec fn yolo_text_enabled(text: Seq<char>) -> bool {
    let t = ascii_lower(trim(text));
    t == "true"@ || t == "on"@ || t == "1"@
}

pub fn yolo_state_enabled(text: &str) -> (r: bool)
    ensures
        r == yolo_text_enabled(text@),
{
    let c = str_chars(text);
    let t = ascii_lower_slice(trim_slice(c.as_slice()));
    lit_eq(t.as_slice(), "true") || lit_eq(t.as_slice(), "on") || lit_eq(t.as_slice(), "1")
}

/// What the state file holds for a setting.
pub fn yolo_state_text(enabled: bool) -> (r: &'static str)
    ensures
        r@ == (if enabled {
            "true\n"@
        } else {
            "false\n"@
        }),
{
    if enabled {
        "true\n"
    } else {
        "false\n"
    }
}

/// The reply to `:yolo`: the project's switch after the command.
pub fn yolo_status_line(enabled: bool) -> (r: &'static str)
    ensures
        r@ == (if enabled {
            "Yolo: on"@
        } else {
            "Yolo: off"@
        }),
{
    if enabled {
        "Yolo: on"
    } else {
        "Yolo: off"
    }
}

pub open spec fn yolo_path(c: WecodeConfig, home: Option<Seq<char>>, project_key: &str) -> Seq<char> {
    join_path(
        join_path(expand_tilde(c.openclaw.state_dir@, home), "codex-yolo"@),
        hex_fixed(fnv1a(project_key.spec_bytes()) as nat, 16) + ".txt"@,
    )
}

/// `<state dir>/codex-yolo/<hash of the project directory>.txt`.
pub fn project_yolo_state_path(config: &WecodeConfig, home: Option<&str>, project_key: &str) -> (r:
    String)
    ensures
        r@ == yolo_path(*config, crate::backend::opt_str(home), project_key),
{
    let state = str_chars(config.openclaw.state_dir.as_str());
    let base = expand_tilde_chars(state.as_slice(), home);
    let sub = str_chars("codex-yolo");
    let dir = join_path_chars(base.as_slice(), sub.as_slice());
    let hash = stable_key_hash(project_key);
    let h = str_chars(hash.as_str());
    let name = with_lit(h.as_slice(), ".txt");
    chars_to_string(join_path_chars(dir.as_slice(), name.as_slice()).as_slice())
}

/// What is written for a yolo setting reads back as that setting.
pub proof fn law_yolo_state_reads_back(enabled: bool)
    ensures
        yolo_text_enabled(if enabled {
            "true\n"@
        } else {
            "false\n"@
        }) == enabled,
{
    reveal_strlit("true\n");
    reveal_strlit("false\n");
    reveal_strlit("true");
    reveal_strlit("on");
    reveal_strlit("1");
    let t = if enabled {
        "true\n"@
    } else {
        "false\n"@
    };
    let word = t.drop_last();
    assert(crate::text::is_ws(t.last()));
    assert(!crate::text::is_ws(word.last()));
    assert(crate::text::trim_end(t) == crate::text::trim_end(word));
    assert(crate::text::trim_end(word) == word);
    assert(!crate::text::is_ws(t[0]));
    crate::text::lemma_trim_start_fixed(t);
    assert(trim(t) == word);
    let lower = ascii_lower(word);
    assert(lower =~= word);
    if enabled {
        assert(word =~= "true"@);
    } else {
        assert(word.len() == 5);
        assert(word != "true"@);
        assert(word != "on"@);
        assert(word != "1"@);
    }
}

/// Whether a project's yolo switch is on, from its state file's text (no
/// file: off).
pub open spec fn yolo_read(text: Option<Seq<char>>) -> bool {
    match text {
        Some(t) => yolo_text_enabled(t),
        None => false,
    }
}

pub open spec fn state_text(enabled: bool) -> Seq<char> {
    if enabled {
        "true\n"@
    } else {
        "false\n"@
    }
}

/// The setting after `:yolo` (`request`: the explicit `true`/`false`, or
/// `None` to toggle), from the state file's current text.
pub open spec fn yolo_after(current: Option<Seq<char>>, request: Option<bool>) -> bool {
    match request {
        Some(b) => b,
        None => !yolo_read(current),
    }
}

/// `:yolo`: the new setting and the text to write to the state file.
pub fn yolo_update(current: Option<&str>, request: Option<bool>) -> (r: (bool, &'static str))
    ensures
        r.0 == yolo_after(crate::backend::opt_str(current), request),
        r.1@ == state_text(r.0),
{
    let enabled = match request {
        Some(b) => b,
        None => match current {
            Some(t) => !yolo_state_enabled(t),
            None => true,
        },
    };
    (enabled, yolo_state_text(enabled))
}

/// Toggling reads back as the opposite setting, and toggling twice gives
/// the setting back.
pub proof fn law_yolo_toggle_round_trip(current: Option<Seq<char>>)
    ensures
        yolo_read(Some(state_text(yolo_after(current, None)))) == !yolo_read(current),
        yolo_after(Some(state_text(yolo_after(current, None))), None) == yolo_read(current),
{
    law_yolo_state_reads_back(yolo_after(current, None));
}

} // verus!
