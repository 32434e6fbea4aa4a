//! Codex session summaries for `:resume`: what a rollout file says about a
//! session, and which sessions are listed, newest first.
use crate::commands::{decorated_message, decorated_message_exec};
use crate::json::{
    jarray, jget, jget_opt, json_as_array, json_get, json_get_opt, json_parse, json_str_field,
    jstr, parse_json, ref_val, views, Json, JsonValue,
};
use crate::text::{
    chars_to_string, concat2, find, find_slice, is_ws, join, join_chars, leading_word,
    leading_word_len, lemma_trim_start_shape, lit_eq, lit_starts, opt_seq, starts_with,
    str_chars, strings_view, trim, trim_slice, trim_start, trim_start_slice, with_lit, words_view,
};
use vstd::prelude::*;

verus! {

#[derive(Debug, Clone, PartialEq, Eq)]
pub struct CodexSessionSummary {
    pub id: String,
    pub timestamp: String,
    pub cwd: String,
    pub originator: String,
    pub title: String,
    pub initial_prompt: String,
}

// ---------------------------------------------------------------------------
// Single-line text
// ---------------------------------------------------------------------------

pub proof fn lemma_leading_word_bounds(s: Seq<char>)
    ensures
        leading_word(s).len() <= s.len(),
        s.len() > 0 && !is_ws(s[0]) ==> leading_word(s).len() >= 1,
    decreases s.len(),
{
    if s.len() > 0 && !is_ws(s[0]) {
        lemma_leading_word_bounds(s.drop_first());
    }
}

/// The whitespace-separated words of `s` (`str::split_whitespace`).
pub open spec fn ws_words(s: Seq<char>) -> Seq<Seq<char>>
    decreases s.len(),
{
    let t = trim_start(s);
    let w = leading_word(t);
    if t.len() == 0 || w.len() == 0 {
        Seq::empty()
    } else {
        proof {
            lemma_trim_start_shape(s);
            lemma_leading_word_bounds(t);
        }
        seq![w] + ws_words(t.skip(w.len() as int))
    }
}

/// At most `max` characters, with `...` when something was cut.
pub open spec fn truncated(s: Seq<char>, max: nat) -> Seq<char> {
    if s.len() > max {
        s.take(max as int) + "..."@
    } else {
        s
    }
}

/// The words of `s` on one line, single-spaced, cut at `max` characters.
pub open spec fn single_line(s: Seq<char>, max: nat) -> Seq<char> {
    truncated(join(ws_words(s), " "@), max)
}

fn ws_words_exec(s: &[char]) -> (out: Vec<Vec<char>>)
    ensures
        words_view(out@) == ws_words(s@),
{
    let mut words: Vec<Vec<char>> = Vec::new();
    let mut rest: &[char] = s;
    assert(words_view(words@) + ws_words(rest@) =~= ws_words(s@));
    while rest.len() > 0
        invariant
            ws_words(s@) == words_view(words@) + ws_words(rest@),
        decreases rest.len(),
    {
        let t = trim_start_slice(rest);
        proof {
            lemma_trim_start_shape(rest@);
        }
        if t.len() == 0 {
            assert(ws_words(rest@) =~= Seq::<Seq<char>>::empty());
            assert(words_view(words@) + ws_words(t@) =~= words_view(words@));
            rest = t;
        } else {
            let n = leading_word_len(t);
            proof {
                lemma_leading_word_bounds(t@);
            }
            let w = &t[0..n];
            let r = &t[n..t.len()];
            assert(r@ =~= t@.skip(n as int));
            assert(w@ =~= leading_word(t@));
            let ghost before = words_view(words@);
            words.push(concat2(w, &[]));
            proof {
                assert(words_view(words@) =~= before.push(leading_word(t@)));
                assert(ws_words(rest@) == seq![leading_word(t@)] + ws_words(r@));
                assert(before + ws_words(rest@) =~= words_view(words@) + ws_words(r@));
            }
            rest = r;
        }
    }
    assert(ws_words(rest@) =~= Seq::<Seq<char>>::empty());
    assert(words_view(words@) + ws_words(rest@) =~= words_view(words@));
    words
}

fn truncate_chars(s: &[char], max: usize) -> (r: Vec<char>)
    ensures
        r@ == truncated(s@, max as nat),
{
    if s.len() > max {
        let head = &s[0..max];
        assert(head@ =~= s@.take(max as int));
        with_lit(head, "...")
    } else {
        concat2(s, &[])
    }
}

/// `input` on one line with its words single-spaced, cut at `max_chars`
/// characters (with `...` when cut).
pub fn truncate_single_line(input: &str, max_chars: usize) -> (r: String)
    ensures
        r@ == single_line(input@, max_chars as nat),
{
    let c = str_chars(input);
    let words = ws_words_exec(c.as_slice());
    let joined = join_chars(words.as_slice(), " ");
    chars_to_string(truncate_chars(joined.as_slice(), max_chars).as_slice())
}

// ---------------------------------------------------------------------------
// The visible text of a user message
// ---------------------------------------------------------------------------

/// The reply after an OpenClaw `[Replying to: ...]` quote, when there is one.
pub open spec fn strip_reply_prefix(input: Seq<char>) -> Seq<char> {
    let t = trim_start(input);
    if !starts_with(t, "[Replying to: "@) {
        input
    } else {
        match find(t, seq![']']) {
            None => input,
            Some(k) => {
                let body = trim_start(t.skip(k + 1));
                if body.len() == 0 {
                    input
                } else {
                    body
                }
            },
        }
    }
}

/// What the user typed, without OpenClaw's metadata and reply quote.
pub open spec fn visible_text(input: Seq<char>) -> Seq<char> {
    strip_reply_prefix(
        match decorated_message(input) {
            Some(m) => m,
            None => input,
        },
    )
}

/// Context that Codex injects as a user message (project instructions,
/// environment).
pub open spec fn is_injected(input: Seq<char>) -> bool {
    starts_with(trim_start(input), "# AGENTS.md instructions for "@) || starts_with(
        trim_start(input),
        "<environment_context>"@,
    )
}

fn strip_reply_prefix_exec(input: &[char]) -> (r: Vec<char>)
    ensures
        r@ == strip_reply_prefix(input@),
{
    let t = trim_start_slice(input);
    if !lit_starts(t, "[Replying to: ") {
        return concat2(input, &[]);
    }
    let close = [']'];
    assert(close@ =~= seq![']']);
    match find_slice(t, &close) {
        None => concat2(input, &[]),
        Some(k) => {
            let n = t.len();
            proof {
                crate::text::lemma_find_from_props(t@, seq![']'], 0);
                assert(k + 1 <= n);
            }
            let after = &t[k + 1..n];
            assert(after@ =~= t@.skip(k + 1));
            let body = trim_start_slice(after);
            if body.len() == 0 {
                concat2(input, &[])
            } else {
                concat2(body, &[])
            }
        },
    }
}

fn visible_text_exec(input: &[char]) -> (r: Vec<char>)
    ensures
        r@ == visible_text(input@),
{
    match decorated_message_exec(input) {
        Some(m) => strip_reply_prefix_exec(m.as_slice()),
        None => strip_reply_prefix_exec(input),
    }
}

fn is_injected_exec(input: &[char]) -> (r: bool)
    ensures
        r == is_injected(input@),
{
    let t = trim_start_slice(input);
    lit_starts(t, "# AGENTS.md instructions for ") || lit_starts(t, "<environment_context>")
}

// ---------------------------------------------------------------------------
// Reading a rollout line
// ---------------------------------------------------------------------------

/// (id, timestamp, cwd, originator) of a `session_meta` line.
pub open spec fn session_meta(v: Json) -> Option<(Seq<char>, Seq<char>, Seq<char>, Seq<char>)> {
    let p = jget(v, "payload"@);
    if jstr(jget(v, "type"@)) != Some("session_meta"@) || p is None {
        None
    } else {
        match (jstr(jget_opt(p, "id"@)), jstr(jget_opt(p, "timestamp"@)), jstr(
            jget_opt(p, "cwd"@),
        )) {
            (Some(id), Some(ts), Some(cwd)) => Some(
                (
                    id,
                    ts,
                    cwd,
                    match jstr(jget_opt(p, "originator"@)) {
                        Some(o) => o,
                        None => "codex"@,
                    },
                ),
            ),
            _ => None,
        }
    }
}

/// The visible text of the first content item that is not injected context.
pub open spec fn first_visible(items: Seq<Json>) -> Option<Seq<char>>
    decreases items.len(),
{
    if items.len() == 0 {
        None
    } else {
        match jstr(jget(items[0], "text"@)) {
            Some(t) => if !is_injected(visible_text(t)) {
                Some(visible_text(t))
            } else {
                first_visible(items.drop_first())
            },
            None => first_visible(items.drop_first()),
        }
    }
}

/// The user's text in an `event_msg` `user_message` line.
pub open spec fn event_message(v: Json) -> Option<Seq<char>> {
    let p = jget(v, "payload"@);
    if jstr(jget(v, "type"@)) == Some("event_msg"@) && jstr(jget_opt(p, "type"@)) == Some(
        "user_message"@,
    ) {
        match jstr(jget_opt(p, "message"@)) {
            Some(m) => if !is_injected(visible_text(m)) {
                Some(visible_text(m))
            } else {
                None
            },
            None => None,
        }
    } else {
        None
    }
}

/// The user's text in a `response_item` line with role `user`.
pub open spec fn response_text(v: Json) -> Option<Seq<char>> {
    let p = jget(v, "payload"@);
    if jstr(jget(v, "type"@)) == Some("response_item"@) && jstr(jget_opt(p, "role"@)) == Some(
        "user"@,
    ) {
        match jarray(jget_opt(p, "content"@)) {
            Some(items) => first_visible(items),
            None => None,
        }
    } else {
        None
    }
}

/// The user text that a rollout line carries, if any.
pub open spec fn session_text(v: Json) -> Option<Seq<char>> {
    match event_message(v) {
        Some(t) => Some(t),
        None => response_text(v),
    }
}

pub open spec fn text_or_empty(t: Option<Seq<char>>, max: nat) -> Seq<char> {
    match t {
        Some(x) => single_line(x, max),
        None => Seq::empty(),
    }
}

fn lit_is(v: Option<&JsonValue>, key: &str, expected: &str) -> (r: bool)
    ensures
        r == (jstr(jget_opt(ref_val(v), key@)) == Some(expected@)),
{
    let k = str_chars(key);
    match json_str_field(v, k.as_slice()) {
        Some(s) => lit_eq(s.as_slice(), expected),
        None => false,
    }
}

fn str_member(v: Option<&JsonValue>, key: &str) -> (r: Option<Vec<char>>)
    ensures
        opt_seq(r) == jstr(jget_opt(ref_val(v), key@)),
{
    let k = str_chars(key);
    json_str_field(v, k.as_slice())
}

fn member<'a>(v: Option<&'a JsonValue>, key: &str) -> (r: Option<&'a JsonValue>)
    ensures
        ref_val(r) == jget_opt(ref_val(v), key@),
{
    let k = str_chars(key);
    json_get_opt(v, k.as_slice())
}

fn extract_session_meta(value: &JsonValue) -> (r: Option<(String, String, String, String)>)
    ensures
        match r {
            Some((a, b, c, d)) => session_meta(value@) == Some((a@, b@, c@, d@)),
            None => session_meta(value@) is None,
        },
{
    if !lit_is(Some(value), "type", "session_meta") {
        return None;
    }
    let payload = match member(Some(value), "payload") {
        Some(p) => p,
        None => return None,
    };
    let id = match str_member(Some(payload), "id") {
        Some(x) => x,
        None => return None,
    };
    let ts = match str_member(Some(payload), "timestamp") {
        Some(x) => x,
        None => return None,
    };
    let cwd = match str_member(Some(payload), "cwd") {
        Some(x) => x,
        None => return None,
    };
    let originator = match str_member(Some(payload), "originator") {
        Some(x) => x,
        None => str_chars("codex"),
    };
    Some(
        (
            chars_to_string(id.as_slice()),
            chars_to_string(ts.as_slice()),
            chars_to_string(cwd.as_slice()),
            chars_to_string(originator.as_slice()),
        ),
    )
}

fn first_visible_exec(items: &Vec<JsonValue>) -> (r: Option<Vec<char>>)
    ensures
        opt_seq(r) == first_visible(views(items@)),
{
    let ghost vs = views(items@);
    let mut i: usize = 0;
    assert(vs.skip(0) =~= vs);
    while i < items.len()
        invariant
            i <= items.len(),
            vs == views(items@),
            first_visible(vs) == first_visible(vs.skip(i as int)),
        decreases items.len() - i,
    {
        assert(vs.skip(i as int)[0] == items@[i as int]@);
        assert(vs.skip(i as int).drop_first() =~= vs.skip(i + 1));
        match str_member(Some(&items[i]), "text") {
            Some(t) => {
                let vt = visible_text_exec(t.as_slice());
                if !is_injected_exec(vt.as_slice()) {
                    return Some(vt);
                }
            },
            None => {},
        }
        i += 1;
    }
    None
}

fn session_text_exec(value: &JsonValue) -> (r: Option<Vec<char>>)
    ensures
        opt_seq(r) == session_text(value@),
{
    let payload = member(Some(value), "payload");
    if lit_is(Some(value), "type", "event_msg") && lit_is(payload, "type", "user_message") {
        match str_member(payload, "message") {
            Some(m) => {
                let vt = visible_text_exec(m.as_slice());
                if !is_injected_exec(vt.as_slice()) {
                    return Some(vt);
                }
            },
            None => {},
        }
    }
    assert(event_message(value@) is None);
    if lit_is(Some(value), "type", "response_item") && lit_is(payload, "role", "user") {
        match json_as_array(member(payload, "content")) {
            Some(items) => first_visible_exec(items),
            None => None,
        }
    } else {
        None
    }
}

fn sanitized(t: Option<Vec<char>>, max: usize) -> (r: String)
    ensures
        r@ == text_or_empty(opt_seq(t), max as nat),
{
    match t {
        Some(x) => truncate_single_line(chars_to_string(x.as_slice()).as_str(), max),
        None => String::new(),
    }
}

/// The session title a rollout line offers (80 characters at most).
pub fn extract_session_title(value: &JsonValue) -> (r: String)
    ensures
        r@ == text_or_empty(session_text(value@), 80),
{
    sanitized(session_text_exec(value), 80)
}

/// The initial prompt a rollout line offers (160 characters at most).
pub fn extract_session_prompt(value: &JsonValue) -> (r: String)
    ensures
        r@ == text_or_empty(session_text(value@), 160),
{
    sanitized(session_text_exec(value), 160)
}

// ---------------------------------------------------------------------------
// A rollout file
// ---------------------------------------------------------------------------

/// What the first lines of a rollout file give: the session's metadata, and
/// its first non-empty title and prompt.  At most 200 lines are read; lines
/// that are not JSON are skipped; reading stops once all three are known.
pub open spec fn scan_session(
    lines: Seq<Seq<char>>,
    i: int,
    meta: Option<(Seq<char>, Seq<char>, Seq<char>, Seq<char>)>,
    title: Seq<char>,
    prompt: Seq<char>,
) -> (Option<(Seq<char>, Seq<char>, Seq<char>, Seq<char>)>, Seq<char>, Seq<char>)
    decreases lines.len() - i,
{
    if i < 0 || i >= lines.len() || i >= 200 {
        (meta, title, prompt)
    } else {
        match json_parse(lines[i]) {
            None => scan_session(lines, i + 1, meta, title, prompt),
            Some(v) => {
                let m2 = if meta is None {
                    session_meta(v)
                } else {
                    meta
                };
                let t2 = if title.len() == 0 {
                    text_or_empty(session_text(v), 80)
                } else {
                    title
                };
                let p2 = if prompt.len() == 0 {
                    text_or_empty(session_text(v), 160)
                } else {
                    prompt
                };
                if m2 is Some && t2.len() > 0 && p2.len() > 0 {
                    (m2, t2, p2)
                } else {
                    scan_session(lines, i + 1, m2, t2, p2)
                }
            },
        }
    }
}

/// A session summary as (id, timestamp, cwd, originator, title, prompt).
pub open spec fn summary_fields(s: CodexSessionSummary) -> (
    Seq<char>,
    Seq<char>,
    Seq<char>,
    Seq<char>,
    Seq<char>,
    Seq<char>,
) {
    (s.id@, s.timestamp@, s.cwd@, s.originator@, s.title@, s.initial_prompt@)
}

/// The summary of a rollout file, `None` when it has no `session_meta` line.
pub open spec fn session_of_lines(lines: Seq<Seq<char>>) -> Option<
    (Seq<char>, Seq<char>, Seq<char>, Seq<char>, Seq<char>, Seq<char>),
> {
    let r = scan_session(lines, 0, None, Seq::empty(), Seq::empty());
    match r.0 {
        Some((id, ts, cwd, originator)) => Some((id, ts, cwd, originator, r.1, r.2)),
        None => None,
    }
}

/// Summarizes a rollout file from its lines.
pub fn read_codex_session(lines: &[String]) -> (r: Option<CodexSessionSummary>)
    ensures
        match r {
            Some(s) => session_of_lines(strings_view(lines@)) == Some(summary_fields(s)),
            None => session_of_lines(strings_view(lines@)) is None,
        },
{
    let ghost lv = strings_view(lines@);
    let mut meta: Option<(String, String, String, String)> = None;
    let mut title = String::new();
    let mut prompt = String::new();
    let mut i: usize = 0;
    let mut done = false;
    while i < lines.len() && i < 200 && !done
        invariant
            i <= lines.len(),
            lv == strings_view(lines@),
            scan_session(lv, 0, None, Seq::empty(), Seq::empty()) == (if done {
                (
                    match meta {
                        Some((a, b, c, d)) => Some((a@, b@, c@, d@)),
                        None => None,
                    },
                    title@,
                    prompt@,
                )
            } else {
                scan_session(
                    lv,
                    i as int,
                    match meta {
                        Some((a, b, c, d)) => Some((a@, b@, c@, d@)),
                        None => None,
                    },
                    title@,
                    prompt@,
                )
            }),
        decreases lines.len() - i,
    {
        match parse_json(lines[i].as_str()) {
            None => {},
            Some(v) => {
                if meta.is_none() {
                    meta = extract_session_meta(&v);
                }
                if title.as_str().is_empty() {
                    title = extract_session_title(&v);
                }
                if prompt.as_str().is_empty() {
                    prompt = extract_session_prompt(&v);
                }
                if meta.is_some() && !title.as_str().is_empty() && !prompt.as_str().is_empty() {
                    done = true;
                }
            },
        }
        i += 1;
    }
    match meta {
        Some((id, timestamp, cwd, originator)) => Some(
            CodexSessionSummary { id, timestamp, cwd, originator, title, initial_prompt: prompt },
        ),
        None => None,
    }
}

/// A line offers a title exactly when it offers a prompt: both are the same
/// text, cut at different lengths.
proof fn lemma_title_empty_iff_prompt_empty(t: Option<Seq<char>>)
    ensures
        text_or_empty(t, 80).len() == 0 <==> text_or_empty(t, 160).len() == 0,
        text_or_empty(t, 80).len() == 0 ==> text_or_empty(t, 80) =~= Seq::<char>::empty(),
        text_or_empty(t, 160).len() == 0 ==> text_or_empty(t, 160) =~= Seq::<char>::empty(),
{
}

/// Once a title and a prompt are known, the rest of the file keeps them.
proof fn lemma_scan_keeps_text(
    lines: Seq<Seq<char>>,
    i: int,
    meta: Option<(Seq<char>, Seq<char>, Seq<char>, Seq<char>)>,
    title: Seq<char>,
    prompt: Seq<char>,
)
    requires
        title.len() > 0,
        prompt.len() > 0,
    ensures
        scan_session(lines, i, meta, title, prompt).1 == title,
        scan_session(lines, i, meta, title, prompt).2 == prompt,
    decreases lines.len() - i,
{
    if i < 0 || i >= lines.len() || i >= 200 {
    } else {
        match json_parse(lines[i]) {
            None => lemma_scan_keeps_text(lines, i + 1, meta, title, prompt),
            Some(v) => {
                let m2 = if meta is None {
                    session_meta(v)
                } else {
                    meta
                };
                if !(m2 is Some) {
                    lemma_scan_keeps_text(lines, i + 1, m2, title, prompt);
                }
            },
        }
    }
}

/// Lines without user text, from `i` on, leave the title and prompt unset
/// until line `j`, which sets both.
proof fn lemma_scan_reaches_text(
    lines: Seq<Seq<char>>,
    i: int,
    j: int,
    v: Json,
    meta: Option<(Seq<char>, Seq<char>, Seq<char>, Seq<char>)>,
)
    requires
        0 <= i <= j < lines.len(),
        j < 200,
        json_parse(lines[j]) == Some(v),
        text_or_empty(session_text(v), 80).len() > 0,
        forall|k: int|
            i <= k < j && #[trigger] json_parse(lines[k]) is Some ==> text_or_empty(
                session_text(json_parse(lines[k])->0),
                80,
            ).len() == 0,
    ensures
        scan_session(lines, i, meta, Seq::empty(), Seq::empty()).1 == text_or_empty(
            session_text(v),
            80,
        ),
        scan_session(lines, i, meta, Seq::empty(), Seq::empty()).2 == text_or_empty(
            session_text(v),
            160,
        ),
    decreases j - i,
{
    lemma_title_empty_iff_prompt_empty(session_text(v));
    match json_parse(lines[i]) {
        None => {
            lemma_scan_reaches_text(lines, i + 1, j, v, meta);
        },
        Some(u) => {
            let m2 = if meta is None {
                session_meta(u)
            } else {
                meta
            };
            let t2 = text_or_empty(session_text(u), 80);
            let p2 = text_or_empty(session_text(u), 160);
            if i < j {
                lemma_title_empty_iff_prompt_empty(session_text(u));
                assert(json_parse(lines[i]) is Some);
                assert(t2 =~= Seq::<char>::empty());
                assert(p2 =~= Seq::<char>::empty());
                lemma_scan_reaches_text(lines, i + 1, j, v, m2);
            } else if !(m2 is Some) {
                lemma_scan_keeps_text(lines, i + 1, m2, t2, p2);
            }
        },
    }
}

/// The title and the initial prompt of a session come from its first line,
/// among the first 200, that carries user text: the title is that text cut
/// at 80 characters and the prompt the same text cut at 160, whatever later
/// lines say.
pub proof fn law_title_is_first_user_text(lines: Seq<Seq<char>>, j: int, v: Json)
    requires
        0 <= j < lines.len(),
        j < 200,
        json_parse(lines[j]) == Some(v),
        text_or_empty(session_text(v), 80).len() > 0,
        forall|k: int|
            0 <= k < j && #[trigger] json_parse(lines[k]) is Some ==> text_or_empty(
                session_text(json_parse(lines[k])->0),
                80,
            ).len() == 0,
    ensures
        session_of_lines(lines) matches Some(s) ==> s.4 == text_or_empty(session_text(v), 80)
            && s.5 == text_or_empty(session_text(v), 160),
{
    lemma_scan_reaches_text(lines, 0, j, v, None);
}

/// Lines without user text leave the title and prompt empty.
proof fn lemma_scan_without_text(
    lines: Seq<Seq<char>>,
    i: int,
    meta: Option<(Seq<char>, Seq<char>, Seq<char>, Seq<char>)>,
)
    requires
        0 <= i,
        forall|k: int|
            i <= k < lines.len() && k < 200 && #[trigger] json_parse(lines[k]) is Some
                ==> text_or_empty(session_text(json_parse(lines[k])->0), 80).len() == 0,
    ensures
        scan_session(lines, i, meta, Seq::empty(), Seq::empty()).1 == Seq::<char>::empty(),
        scan_session(lines, i, meta, Seq::empty(), Seq::empty()).2 == Seq::<char>::empty(),
    decreases lines.len() - i,
{
    if i >= lines.len() || i >= 200 {
    } else {
        match json_parse(lines[i]) {
            None => lemma_scan_without_text(lines, i + 1, meta),
            Some(u) => {
                let m2 = if meta is None {
                    session_meta(u)
                } else {
                    meta
                };
                lemma_title_empty_iff_prompt_empty(session_text(u));
                assert(json_parse(lines[i]) is Some);
                assert(text_or_empty(session_text(u), 80) =~= Seq::<char>::empty());
                assert(text_or_empty(session_text(u), 160) =~= Seq::<char>::empty());
                lemma_scan_without_text(lines, i + 1, m2);
            },
        }
    }
}

/// A session none of whose first 200 lines carries user text has an empty
/// title and an empty initial prompt.
pub proof fn law_no_user_text_no_title(lines: Seq<Seq<char>>)
    requires
        forall|k: int|
            0 <= k < lines.len() && k < 200 && #[trigger] json_parse(lines[k]) is Some
                ==> text_or_empty(session_text(json_parse(lines[k])->0), 80).len() == 0,
    ensures
        session_of_lines(lines) matches Some(s) ==> s.4 == Seq::<char>::empty() && s.5
            == Seq::<char>::empty(),
{
    lemma_scan_without_text(lines, 0, None);
}

// ---------------------------------------------------------------------------
// Titles from Codex's thread database
// ---------------------------------------------------------------------------

/// The title last recorded for `id` among (id, title) rows.
pub open spec fn last_title(rows: Seq<(String, String)>, id: Seq<char>) -> Option<Seq<char>>
    decreases rows.len(),
{
    if rows.len() == 0 {
        None
    } else if rows.last().0@ == id {
        Some(rows.last().1@)
    } else {
        last_title(rows.drop_last(), id)
    }
}

/// A session's title after the database is consulted: the recorded title's
/// visible text, when it is not blank, replaces the one from the rollout.
pub open spec fn titled(title: Seq<char>, recorded: Option<Seq<char>>) -> Seq<char> {
    match recorded {
        Some(t) => if trim(visible_text(t)).len() > 0 {
            single_line(trim(visible_text(t)), 80)
        } else {
            title
        },
        None => title,
    }
}

pub open spec fn with_title(s: CodexSessionSummary, rows: Seq<(String, String)>) -> (
    Seq<char>,
    Seq<char>,
    Seq<char>,
    Seq<char>,
    Seq<char>,
    Seq<char>,
) {
    (
        s.id@,
        s.timestamp@,
        s.cwd@,
        s.originator@,
        titled(s.title@, last_title(rows, s.id@)),
        s.initial_prompt@,
    )
}

fn find_title(rows: &[(String, String)], id: &String) -> (r: Option<usize>)
    ensures
        match r {
            Some(k) => k < rows.len() && last_title(rows@, id@) == Some(rows@[k as int].1@),
            None => last_title(rows@, id@) is None,
        },
{
    let mut n: usize = rows.len();
    assert(rows@.take(n as int) =~= rows@);
    while n > 0
        invariant
            n <= rows.len(),
            last_title(rows@, id@) == last_title(rows@.take(n as int), id@),
        decreases n,
    {
        assert(rows@.take(n as int).drop_last() =~= rows@.take(n - 1));
        assert(rows@.take(n as int).last() == rows@[n - 1]);
        if rows[n - 1].0 == *id {
            return Some(n - 1);
        }
        n -= 1;
    }
    None
}

/// The `(id, title)` rows among the items of a JSON array.
pub open spec fn title_rows(items: Seq<Json>) -> Seq<(Seq<char>, Seq<char>)>
    decreases items.len(),
{
    if items.len() == 0 {
        Seq::empty()
    } else {
        let prev = title_rows(items.drop_last());
        let row = items.last();
        match (jstr(jget(row, "id"@)), jstr(jget(row, "title"@))) {
            (Some(id), Some(title)) => prev.push((id, title)),
            _ => prev,
        }
    }
}

pub open spec fn row_views(rows: Seq<(String, String)>) -> Seq<(Seq<char>, Seq<char>)> {
    rows.map_values(|r: (String, String)| (r.0@, r.1@))
}

/// The titles that Codex's state database lists, read from the JSON that
/// `sqlite3 -json` printed: `None` when it is not a JSON array.
pub fn state_title_rows(output: &str) -> (r: Option<Vec<(String, String)>>)
    ensures
        match json_parse(output@) {
            Some(Json::Array(items)) => r matches Some(rows) && row_views(rows@) == title_rows(items),
            _ => r is None,
        },
{
    let parsed = match parse_json(output) {
        Some(v) => v,
        None => return None,
    };
    let items = match crate::json::json_as_array(Some(&parsed)) {
        Some(items) => items,
        None => return None,
    };
    let ghost iv = views(items@);
    let ik = str_chars("id");
    let tk = str_chars("title");
    let mut rows: Vec<(String, String)> = Vec::new();
    let mut i: usize = 0;
    assert(iv.take(0) =~= Seq::<Json>::empty());
    assert(row_views(rows@) =~= title_rows(iv.take(0)));
    while i < items.len()
        invariant
            i <= items.len(),
            iv == views(items@),
            ik@ == "id"@,
            tk@ == "title"@,
            row_views(rows@) == title_rows(iv.take(i as int)),
        decreases items.len() - i,
    {
        assert(iv.take(i + 1).drop_last() =~= iv.take(i as int));
        assert(iv.take(i + 1).last() == items@[i as int]@);
        let row = &items[i];
        let id = json_str_field(Some(row), ik.as_slice());
        let title = json_str_field(Some(row), tk.as_slice());
        match (id, title) {
            (Some(a), Some(b)) => {
                let ghost before = row_views(rows@);
                rows.push((chars_to_string(a.as_slice()), chars_to_string(b.as_slice())));
                assert(row_views(rows@) =~= before.push((a@, b@)));
            },
            _ => {},
        }
        i += 1;
    }
    assert(iv.take(items.len() as int) =~= iv);
    Some(rows)
}

/// Replaces the titles of `sessions` by the ones Codex recorded.
pub fn apply_codex_state_titles(sessions: &mut Vec<CodexSessionSummary>, rows: &[(String, String)])
    ensures
        final(sessions)@.len() == old(sessions)@.len(),
        forall|i: int|
            0 <= i < old(sessions)@.len() ==> summary_fields(#[trigger] final(sessions)@[i])
                == with_title(old(sessions)@[i], rows@),
{
    let ghost orig = sessions@;
    let mut i: usize = 0;
    while i < sessions.len()
        invariant
            i <= sessions.len(),
            sessions@.len() == orig.len(),
            forall|k: int| 0 <= k < i ==> summary_fields(#[trigger] sessions@[k]) == with_title(orig[k], rows@),
            forall|k: int| i <= k < orig.len() ==> #[trigger] sessions@[k] == orig[k],
        decreases sessions.len() - i,
    {
        match find_title(rows, &sessions[i].id) {
            Some(k) => {
                let t = str_chars(rows[k].1.as_str());
                let v = visible_text_exec(t.as_slice());
                let tr = trim_slice(v.as_slice());
                if tr.len() > 0 {
                    let title = truncate_single_line(chars_to_string(tr).as_str(), 80);
                    let cur = &sessions[i];
                    let s = CodexSessionSummary {
                        id: cur.id.clone(),
                        timestamp: cur.timestamp.clone(),
                        cwd: cur.cwd.clone(),
                        originator: cur.originator.clone(),
                        title,
                        initial_prompt: cur.initial_prompt.clone(),
                    };
                    sessions.set(i, s);
                }
            },
            None => {},
        }
        i += 1;
    }
}

// ---------------------------------------------------------------------------
// Newest first
// ---------------------------------------------------------------------------

/// Lexicographic order of character sequences (Rust's `str` order).
pub open spec fn seq_lt(a: Seq<char>, b: Seq<char>) -> bool
    decreases a.len(),
{
    if a.len() == 0 {
        b.len() > 0
    } else if b.len() == 0 {
        false
    } else if a[0] != b[0] {
        a[0] < b[0]
    } else {
        seq_lt(a.drop_first(), b.drop_first())
    }
}

pub proof fn lemma_seq_lt_asym(a: Seq<char>, b: Seq<char>)
    ensures
        seq_lt(a, b) ==> !seq_lt(b, a),
        !seq_lt(a, a),
    decreases a.len(),
{
    if a.len() > 0 && b.len() > 0 && a[0] == b[0] {
        lemma_seq_lt_asym(a.drop_first(), b.drop_first());
    }
    if a.len() > 0 {
        lemma_seq_lt_asym(a.drop_first(), a.drop_first());
    }
}

pub proof fn lemma_seq_lt_trans(a: Seq<char>, b: Seq<char>, c: Seq<char>)
    requires
        seq_lt(a, b),
        seq_lt(b, c),
    ensures
        seq_lt(a, c),
    decreases a.len(),
{
    if a.len() > 0 && b.len() > 0 && c.len() > 0 && a[0] == b[0] && b[0] == c[0] {
        lemma_seq_lt_trans(a.drop_first(), b.drop_first(), c.drop_first());
    }
}

pub proof fn lemma_seq_lt_total(a: Seq<char>, b: Seq<char>)
    ensures
        a != b ==> seq_lt(a, b) || seq_lt(b, a),
    decreases a.len(),
{
    if a.len() == 0 && b.len() == 0 {
        assert(a =~= b);
    } else if a.len() > 0 && b.len() > 0 && a[0] == b[0] {
        lemma_seq_lt_total(a.drop_first(), b.drop_first());
        if a.drop_first() == b.drop_first() {
            assert(a.drop_first().len() == b.drop_first().len());
            assert(a.len() == b.len());
            assert forall|i: int| 0 <= i < a.len() implies a[i] == b[i] by {
                if i > 0 {
                    assert(a[i] == a.drop_first()[i - 1]);
                    assert(b[i] == b.drop_first()[i - 1]);
                }
            }
            assert(a =~= b);
        }
    }
}

/// `a` sorts after `b` in the list (`b` is newer): by timestamp, then id.
pub open spec fn key_lt(a: CodexSessionSummary, b: CodexSessionSummary) -> bool {
    seq_lt(a.timestamp@, b.timestamp@) || (a.timestamp@ == b.timestamp@ && seq_lt(a.id@, b.id@))
}

pub open spec fn newest_first(s: Seq<CodexSessionSummary>) -> bool {
    forall|i: int, j: int| 0 <= i < j < s.len() ==> !key_lt(#[trigger] s[i], #[trigger] s[j])
}

proof fn lemma_key_order(a: CodexSessionSummary, b: CodexSessionSummary, c: CodexSessionSummary)
    ensures
        key_lt(a, b) ==> !key_lt(b, a),
        !key_lt(a, a),
        key_lt(a, b) && key_lt(b, c) ==> key_lt(a, c),
        !key_lt(a, b) ==> key_lt(b, a) || (a.timestamp@ == b.timestamp@ && a.id@ == b.id@),
{
    lemma_seq_lt_asym(a.timestamp@, b.timestamp@);
    lemma_seq_lt_asym(a.id@, b.id@);
    lemma_seq_lt_total(a.timestamp@, b.timestamp@);
    lemma_seq_lt_total(a.id@, b.id@);
    if seq_lt(a.timestamp@, b.timestamp@) && seq_lt(b.timestamp@, c.timestamp@) {
        lemma_seq_lt_trans(a.timestamp@, b.timestamp@, c.timestamp@);
    }
    if seq_lt(a.id@, b.id@) && seq_lt(b.id@, c.id@) {
        lemma_seq_lt_trans(a.id@, b.id@, c.id@);
    }
}

pub(crate) fn seq_lt_exec(a: &[char], b: &[char]) -> (r: bool)
    ensures
        r == seq_lt(a@, b@),
{
    let mut i: usize = 0;
    assert(a@.skip(0) =~= a@);
    assert(b@.skip(0) =~= b@);
    while i < a.len() && i < b.len() && a[i] == b[i]
        invariant
            i <= a.len(),
            i <= b.len(),
            seq_lt(a@, b@) == seq_lt(a@.skip(i as int), b@.skip(i as int)),
        decreases a.len() - i,
    {
        assert(a@.skip(i as int).drop_first() =~= a@.skip(i + 1));
        assert(b@.skip(i as int).drop_first() =~= b@.skip(i + 1));
        i += 1;
    }
    if i == a.len() {
        i < b.len()
    } else if i == b.len() {
        false
    } else {
        a[i] < b[i]
    }
}

fn key_lt_exec(a: &CodexSessionSummary, b: &CodexSessionSummary) -> (r: bool)
    ensures
        r == key_lt(*a, *b),
{
    let at = str_chars(a.timestamp.as_str());
    let bt = str_chars(b.timestamp.as_str());
    if seq_lt_exec(at.as_slice(), bt.as_slice()) {
        return true;
    }
    if a.timestamp == b.timestamp {
        let ai = str_chars(a.id.as_str());
        let bi = str_chars(b.id.as_str());
        seq_lt_exec(ai.as_slice(), bi.as_slice())
    } else {
        false
    }
}

pub open spec fn texts_ascending(s: Seq<Seq<char>>) -> bool {
    forall|i: int, j: int| 0 <= i < j < s.len() ==> !seq_lt(#[trigger] s[j], #[trigger] s[i])
}

/// Where `x` goes in the ascending `s`: after every entry that does not sort
/// after it.
proof fn lemma_insert_ascending(s: Seq<Seq<char>>, p: int, x: Seq<char>)
    requires
        texts_ascending(s),
        0 <= p <= s.len(),
        forall|k: int| 0 <= k < p ==> !seq_lt(x, #[trigger] s[k]),
        p < s.len() ==> seq_lt(x, s[p]),
    ensures
        texts_ascending(s.insert(p, x)),
{
    let n = s.insert(p, x);
    assert forall|j: int| p <= j < s.len() implies !seq_lt(#[trigger] s[j], x) by {
        lemma_seq_lt_asym(x, s[p]);
        if j > p {
            lemma_seq_lt_total(s[p], s[j]);
            if seq_lt(s[p], s[j]) {
                lemma_seq_lt_trans(x, s[p], s[j]);
                lemma_seq_lt_asym(x, s[j]);
            }
        }
    }
    assert forall|a: int, b: int| 0 <= a < b < n.len() implies !seq_lt(#[trigger] n[b], #[trigger] n[a]) by {
        if b < p {
            assert(n[a] == s[a] && n[b] == s[b]);
        } else if b == p {
            assert(n[a] == s[a]);
        } else if a == p {
            assert(n[b] == s[b - 1]);
        } else if a < p {
            assert(n[a] == s[a] && n[b] == s[b - 1]);
            lemma_seq_lt_total(x, s[a]);
            lemma_seq_lt_total(s[b - 1], x);
            if seq_lt(s[b - 1], s[a]) && s[a] != x && s[b - 1] != x {
                lemma_seq_lt_trans(s[b - 1], x, s[a]);
            }
        } else {
            assert(n[a] == s[a - 1] && n[b] == s[b - 1]);
        }
    }
}

/// The place at which `x` is inserted into the ascending `keys`.
fn insertion_point(keys: &Vec<Vec<char>>, x: &[char]) -> (p: usize)
    ensures
        p <= keys.len(),
        forall|k: int| 0 <= k < p ==> !seq_lt(x@, #[trigger] words_view(keys@)[k]),
        p < keys.len() ==> seq_lt(x@, words_view(keys@)[p as int]),
{
    let mut p: usize = 0;
    let mut found = false;
    while !found && p < keys.len()
        invariant
            p <= keys.len(),
            forall|k: int| 0 <= k < p ==> !seq_lt(x@, #[trigger] words_view(keys@)[k]),
            found ==> p < keys.len() && seq_lt(x@, words_view(keys@)[p as int]),
        decreases (keys.len() - p) * 2 + (if found {
            0int
        } else {
            1int
        }),
    {
        if seq_lt_exec(x, keys[p].as_slice()) {
            found = true;
        } else {
            p += 1;
        }
    }
    p
}

/// `texts` in ascending (Rust `str`) order.
pub fn sort_texts(texts: Vec<String>) -> (r: Vec<String>)
    ensures
        strings_view(r@).to_multiset() == strings_view(texts@).to_multiset(),
        texts_ascending(strings_view(r@)),
{
    let mut out: Vec<String> = Vec::new();
    let mut keys: Vec<Vec<char>> = Vec::new();
    let ghost tv = strings_view(texts@);
    let mut i: usize = 0;
    assert(strings_view(out@) =~= tv.take(0));
    while i < texts.len()
        invariant
            i <= texts.len(),
            tv == strings_view(texts@),
            words_view(keys@) == strings_view(out@),
            strings_view(out@).to_multiset() == tv.take(i as int).to_multiset(),
            texts_ascending(strings_view(out@)),
        decreases texts.len() - i,
    {
        let x = str_chars(texts[i].as_str());
        let p = insertion_point(&keys, x.as_slice());
        let ghost ov = strings_view(out@);
        proof {
            lemma_insert_ascending(ov, p as int, x@);
        }
        out.insert(p, chars_to_string(x.as_slice()));
        keys.insert(p, x);
        proof {
            assert(strings_view(out@) =~= ov.insert(p as int, tv[i as int]));
            assert(words_view(keys@) =~= ov.insert(p as int, tv[i as int]));
            vstd::seq_lib::to_multiset_insert(ov, p as int, tv[i as int]);
            assert(tv.take(i + 1) =~= tv.take(i as int).push(tv[i as int]));
            vstd::seq_lib::to_multiset_build(tv.take(i as int), tv[i as int]);
        }
        i += 1;
    }
    assert(tv.take(texts.len() as int) =~= tv);
    out
}

pub open spec fn keys_of<T>(s: Seq<(String, T)>) -> Seq<Seq<char>> {
    s.map_values(|e: (String, T)| e.0@)
}

/// `items` ordered by their text key, ascending; the items themselves are
/// moved, not copied.
pub fn sort_by_text_key<T>(items: Vec<(String, T)>) -> (r: Vec<(String, T)>)
    ensures
        r@.to_multiset() == items@.to_multiset(),
        texts_ascending(keys_of(r@)),
{
    let ghost orig = items@;
    let mut rest = items;
    let mut out: Vec<(String, T)> = Vec::new();
    let mut keys: Vec<Vec<char>> = Vec::new();
    proof {
        vstd::seq_lib::to_multiset_len(out@);
        vstd::multiset::lemma_multiset_empty_len(out@.to_multiset());
        assert(out@.to_multiset().add(rest@.to_multiset()) =~= orig.to_multiset());
    }
    while rest.len() > 0
        invariant
            out@.to_multiset().add(rest@.to_multiset()) == orig.to_multiset(),
            words_view(keys@) == keys_of(out@),
            texts_ascending(keys_of(out@)),
        decreases rest.len(),
    {
        let ghost rv = rest@;
        let x = rest.pop().unwrap();
        proof {
            assert(rv =~= rest@.push(x));
            vstd::seq_lib::to_multiset_build(rest@, x);
        }
        let k = str_chars(x.0.as_str());
        let p = insertion_point(&keys, k.as_slice());
        let ghost ov = out@;
        proof {
            lemma_insert_ascending(keys_of(ov), p as int, k@);
        }
        out.insert(p, x);
        keys.insert(p, k);
        proof {
            assert(keys_of(out@) =~= keys_of(ov).insert(p as int, k@));
            assert(words_view(keys@) =~= keys_of(ov).insert(p as int, k@));
            vstd::seq_lib::to_multiset_insert(ov, p as int, x);
            assert(out@.to_multiset().add(rest@.to_multiset()) =~= orig.to_multiset());
        }
    }
    proof {
        vstd::seq_lib::to_multiset_len(rest@);
        vstd::multiset::lemma_multiset_empty_len(rest@.to_multiset());
    }
    assert(out@.to_multiset().add(rest@.to_multiset()) =~= out@.to_multiset());
    out
}

/// The sessions of `candidates` (each paired with the comparable form of its
/// working directory) that belong to `target_cwd`, if one is given.
pub open spec fn in_scope(
    candidates: Seq<(String, CodexSessionSummary)>,
    target_cwd: Option<Seq<char>>,
) -> Seq<CodexSessionSummary>
    decreases candidates.len(),
{
    if candidates.len() == 0 {
        Seq::empty()
    } else {
        let rest = in_scope(candidates.drop_last(), target_cwd);
        let c = candidates.last();
        match target_cwd {
            Some(t) => if c.0@ == t {
                rest.push(c.1)
            } else {
                rest
            },
            None => rest.push(c.1),
        }
    }
}

fn copy_summary(s: &CodexSessionSummary) -> (r: CodexSessionSummary)
    ensures
        r == *s,
{
    CodexSessionSummary {
        id: s.id.clone(),
        timestamp: s.timestamp.clone(),
        cwd: s.cwd.clone(),
        originator: s.originator.clone(),
        title: s.title.clone(),
        initial_prompt: s.initial_prompt.clone(),
    }
}

/// Sorts `sessions` newest first (by timestamp, then id).
pub fn sort_sessions_newest_first(sessions: Vec<CodexSessionSummary>) -> (r: Vec<
    CodexSessionSummary,
>)
    ensures
        r@.to_multiset() == sessions@.to_multiset(),
        newest_first(r@),
{
    let mut out: Vec<CodexSessionSummary> = Vec::new();
    let mut k: usize = 0;
    assert(sessions@.take(0) =~= Seq::<CodexSessionSummary>::empty());
    while k < sessions.len()
        invariant
            k <= sessions.len(),
            out@.to_multiset() == sessions@.take(k as int).to_multiset(),
            newest_first(out@),
        decreases sessions.len() - k,
    {
        let x = copy_summary(&sessions[k]);
        let ghost xv = sessions@[k as int];
        let mut p: usize = 0;
        while p < out.len() && !key_lt_exec(&out[p], &x)
            invariant
                p <= out.len(),
                forall|i: int| 0 <= i < p ==> !key_lt(#[trigger] out@[i], x),
            decreases out.len() - p,
        {
            p += 1;
        }
        proof {
            assert forall|j: int| p <= j < out@.len() implies !key_lt(x, #[trigger] out@[j]) by {
                lemma_key_order(out@[p as int], out@[j], x);
                lemma_key_order(out@[j], out@[p as int], x);
                lemma_key_order(x, out@[j], out@[p as int]);
                if j > p {
                    assert(!key_lt(out@[p as int], out@[j]));
                }
            }
        }
        let ghost before = out@;
        out.insert(p, x);
        proof {
            assert(out@ == before.insert(p as int, x));
            vstd::seq_lib::to_multiset_insert(before, p as int, x);
            assert(sessions@.take(k + 1) =~= sessions@.take(k as int).push(xv));
            vstd::seq_lib::to_multiset_build(sessions@.take(k as int), xv);
            assert forall|i: int, j: int| 0 <= i < j < out@.len() implies !key_lt(
                #[trigger] out@[i],
                #[trigger] out@[j],
            ) by {
                if j < p {
                    assert(out@[i] == before[i] && out@[j] == before[j]);
                } else if j == p {
                    assert(out@[i] == before[i]);
                } else if i == p {
                    assert(out@[j] == before[j - 1]);
                } else if i < p {
                    assert(out@[i] == before[i] && out@[j] == before[j - 1]);
                } else {
                    assert(out@[i] == before[i - 1] && out@[j] == before[j - 1]);
                }
            }
        }
        k += 1;
    }
    assert(sessions@.take(sessions.len() as int) =~= sessions@);
    out
}

pub open spec fn min_len(a: nat, b: nat) -> nat {
    if a < b {
        a
    } else {
        b
    }
}

/// `r` is the newest `limit` sessions of `all`.
pub open spec fn newest_of(r: Seq<CodexSessionSummary>, all: Seq<CodexSessionSummary>, limit: nat) -> bool {
    exists|full: Seq<CodexSessionSummary>|
        #![trigger full.to_multiset()]
        full.to_multiset() == all.to_multiset() && newest_first(full) && r == full.take(
            min_len(limit, all.len()) as int,
        )
}

fn sessions_in_scope(candidates: &Vec<(String, CodexSessionSummary)>, target_cwd: Option<&str>) -> (r:
    Vec<CodexSessionSummary>)
    ensures
        r@ == in_scope(candidates@, crate::backend::opt_str(target_cwd)),
{
    let ghost t = crate::backend::opt_str(target_cwd);
    let mut out: Vec<CodexSessionSummary> = Vec::new();
    let mut i: usize = 0;
    assert(candidates@.take(0) =~= Seq::<(String, CodexSessionSummary)>::empty());
    while i < candidates.len()
        invariant
            i <= candidates.len(),
            t == crate::backend::opt_str(target_cwd),
            out@ == in_scope(candidates@.take(i as int), t),
        decreases candidates.len() - i,
    {
        assert(candidates@.take(i + 1).drop_last() =~= candidates@.take(i as int));
        assert(candidates@.take(i + 1).last() == candidates@[i as int]);
        let keep = match target_cwd {
            Some(target) => {
                let k = str_chars(candidates[i].0.as_str());
                let tc = str_chars(target);
                crate::text::eq_slices(k.as_slice(), tc.as_slice())
            },
            None => true,
        };
        if keep {
            out.push(copy_summary(&candidates[i].1));
        }
        i += 1;
    }
    assert(candidates@.take(candidates.len() as int) =~= candidates@);
    out
}

/// The sessions listed by `:resume`: those of the target directory (all of
/// them when there is none), titled from Codex's database rows, newest
/// first, at most `limit`.  Each candidate carries the comparable form of
/// its working directory.
pub fn select_codex_sessions(
    candidates: Vec<(String, CodexSessionSummary)>,
    target_cwd: Option<&str>,
    rows: &[(String, String)],
    limit: usize,
) -> (r: Vec<CodexSessionSummary>)
    ensures
        exists|titled: Seq<CodexSessionSummary>|
            #![trigger newest_of(r@, titled, limit as nat)]
            titled.len() == in_scope(candidates@, crate::backend::opt_str(target_cwd)).len() && (
            forall|i: int|
                0 <= i < titled.len() ==> summary_fields(#[trigger] titled[i]) == with_title(
                    in_scope(candidates@, crate::backend::opt_str(target_cwd))[i],
                    rows@,
                )) && newest_of(r@, titled, limit as nat),
{
    let mut scoped = sessions_in_scope(&candidates, target_cwd);
    let ghost before = scoped@;
    apply_codex_state_titles(&mut scoped, rows);
    let ghost titled = scoped@;
    let mut sorted = sort_sessions_newest_first(scoped);
    let ghost full = sorted@;
    let n = if limit < sorted.len() {
        limit
    } else {
        sorted.len()
    };
    sorted.truncate(n);
    proof {
        assert(sorted@ =~= full.take(n as int));
        assert(full.to_multiset() == titled.to_multiset());
        assert(newest_first(full));
        vstd::seq_lib::to_multiset_len(full);
        vstd::seq_lib::to_multiset_len(titled);
        assert(min_len(limit as nat, titled.len()) == n);
        assert(newest_of(sorted@, titled, limit as nat));
    }
    sorted
}

/// The sessions of one project directory (see `select_codex_sessions`).
pub fn list_codex_sessions(
    candidates: Vec<(String, CodexSessionSummary)>,
    target_cwd: &str,
    rows: &[(String, String)],
    limit: usize,
) -> (r: Vec<CodexSessionSummary>)
    ensures
        exists|titled: Seq<CodexSessionSummary>|
            #![trigger newest_of(r@, titled, limit as nat)]
            titled.len() == in_scope(candidates@, Some(target_cwd@)).len() && (forall|i: int|
                0 <= i < titled.len() ==> summary_fields(#[trigger] titled[i]) == with_title(
                    in_scope(candidates@, Some(target_cwd@))[i],
                    rows@,
                )) && newest_of(r@, titled, limit as nat),
{
    select_codex_sessions(candidates, Some(target_cwd), rows, limit)
}

/// The sessions of every project (see `select_codex_sessions`).
pub fn list_all_codex_sessions(
    candidates: Vec<(String, CodexSessionSummary)>,
    rows: &[(String, String)],
    limit: usize,
) -> (r: Vec<CodexSessionSummary>)
    ensures
        exists|titled: Seq<CodexSessionSummary>|
            #![trigger newest_of(r@, titled, limit as nat)]
            titled.len() == in_scope(candidates@, None).len() && (forall|i: int|
                0 <= i < titled.len() ==> summary_fields(#[trigger] titled[i]) == with_title(
                    in_scope(candidates@, None)[i],
                    rows@,
                )) && newest_of(r@, titled, limit as nat),
{
    select_codex_sessions(candidates, None, rows, limit)
}

} // verus!
