//! Chat input handling: recognising the message inside what a channel
//! delivers, local `:` commands, custom command templates, and the input
//! that is finally handed to Codex.
use crate::config::{CustomCommand, WecodeConfig};
use crate::json::{
    json_as_array, json_get, json_get_opt, json_str_field, jarray, jget, jget_opt, jstr,
    parse_json, ref_val, json_parse, views, Json, JsonValue,
};
use crate::text::{
    all_ident_chars, all_ident_slice, ascii_lower, ascii_lower_slice, chars_to_string, concat2,
    contains, find, find_from, matches_at, find_slice, find_from_slice, first_nonblank_line,
    first_nonblank_line_exec, has_ws, has_ws_slice, is_ws, leading_word, leading_word_len,
    line_end, line_end_exec, lit_contains, lit_eq, lit_starts, lit_strip, lit_then, opt_int,
    opt_seq, opt_string, replace, replace_slice, rfind, rfind_slice, starts_with, str_chars,
    trim, trim_slice, trim_start, trim_start_slice, with_lit,
};
use vstd::prelude::*;

verus! {

/// A configured command after its template was filled in.
#[derive(Debug, Clone, PartialEq, Eq)]
pub struct RenderedCommand {
    pub command_name: String,
    pub prompt: String,
    pub require_confirm: bool,
}

/// What an input message asks the backend to do.
#[derive(Debug, Clone, PartialEq, Eq)]
pub enum BackendInput {
    Prompt(String),
    Review { instructions: Option<String> },
    Help,
    Status,
    Diff,
    Pwd,
    Ls { path: String },
    Cat { path: String },
    Cd { path: String },
    Shell { command: String },
    ModelShow,
    ModelsList,
    ModelSet { model: String },
    Resume { session_id: Option<String> },
    Fresh { prompt: Option<String> },
    Approve { approval_id: Option<String> },
    Deny { approval_id: Option<String> },
    ApprovalRequired { command_name: String, prompt: String },
    Stop,
    Yolo { enabled: Option<bool> },
    UnknownCommand { command: String },
    AwaitingApproval,
}

/// The command input that was recognised, and what it asks for.
#[derive(Debug, Clone, PartialEq, Eq)]
pub struct PreparedBackendInput {
    pub command_input: String,
    pub input: BackendInput,
}

/// Mathematical view of a `BackendInput`.
pub enum InputView {
    Prompt(Seq<char>),
    Review(Option<Seq<char>>),
    Help,
    Status,
    Diff,
    Pwd,
    Ls(Seq<char>),
    Cat(Seq<char>),
    Cd(Seq<char>),
    Shell(Seq<char>),
    ModelShow,
    ModelsList,
    ModelSet(Seq<char>),
    Resume(Option<Seq<char>>),
    Fresh(Option<Seq<char>>),
    Approve(Option<Seq<char>>),
    Deny(Option<Seq<char>>),
    ApprovalRequired(Seq<char>, Seq<char>),
    Stop,
    Yolo(Option<bool>),
    UnknownCommand(Seq<char>),
    AwaitingApproval,
}

impl View for BackendInput {
    type V = InputView;

    open spec fn view(&self) -> InputView {
        match self {
            BackendInput::Prompt(p) => InputView::Prompt(p@),
            BackendInput::Review { instructions } => InputView::Review(opt_string(*instructions)),
            BackendInput::Help => InputView::Help,
            BackendInput::Status => InputView::Status,
            BackendInput::Diff => InputView::Diff,
            BackendInput::Pwd => InputView::Pwd,
            BackendInput::Ls { path } => InputView::Ls(path@),
            BackendInput::Cat { path } => InputView::Cat(path@),
            BackendInput::Cd { path } => InputView::Cd(path@),
            BackendInput::Shell { command } => InputView::Shell(command@),
            BackendInput::ModelShow => InputView::ModelShow,
            BackendInput::ModelsList => InputView::ModelsList,
            BackendInput::ModelSet { model } => InputView::ModelSet(model@),
            BackendInput::Resume { session_id } => InputView::Resume(opt_string(*session_id)),
            BackendInput::Fresh { prompt } => InputView::Fresh(opt_string(*prompt)),
            BackendInput::Approve { approval_id } => InputView::Approve(opt_string(*approval_id)),
            BackendInput::Deny { approval_id } => InputView::Deny(opt_string(*approval_id)),
            BackendInput::ApprovalRequired { command_name, prompt } => InputView::ApprovalRequired(
                command_name@,
                prompt@,
            ),
            BackendInput::Stop => InputView::Stop,
            BackendInput::Yolo { enabled } => InputView::Yolo(*enabled),
            BackendInput::UnknownCommand { command } => InputView::UnknownCommand(command@),
            BackendInput::AwaitingApproval => InputView::AwaitingApproval,
        }
    }
}

impl BackendInput {
    pub fn is_resume(&self) -> (r: bool)
        ensures
            r == (self@ is Resume),
    {
        match self {
            BackendInput::Resume { .. } => true,
            _ => false,
        }
    }
}

// ---------------------------------------------------------------------------
// Recognising the message inside channel input
// ---------------------------------------------------------------------------

/// `s` is `:name rest`, where `name` (the first word after the colon) is
/// made of ASCII letters, digits, `-` and `_`; the result is everything after
/// the colon.
pub open spec fn colon_body(s: Seq<char>) -> Option<Seq<char>> {
    if s.len() > 0 && s[0] == ':' {
        let w = leading_word(trim_start(s.drop_first()));
        if w.len() > 0 && all_ident_chars(w) {
            Some(s.drop_first())
        } else {
            None
        }
    } else {
        None
    }
}

pub open spec fn message_id_marker() -> Seq<char> {
    "[message_id:"@
}

pub open spec fn metadata_marker() -> Seq<char> {
    "Conversation info (untrusted metadata)"@
}

/// The message of an OpenClaw-decorated input: the text after `sender: ` on
/// the first non-blank line that follows the last `[message_id: ...]` line,
/// to the end of the input, trimmed; `None` when it is empty or the
/// decoration is absent.
pub open spec fn decorated_message(input: Seq<char>) -> Option<Seq<char>> {
    if !(contains(input, message_id_marker()) || contains(input, metadata_marker())) {
        None
    } else {
        match rfind(input, message_id_marker()) {
            None => None,
            Some(m) => match find_from(input, seq!['\n'], m) {
                None => None,
                Some(nl) => match first_nonblank_line(input, nl + 1) {
                    None => None,
                    Some(ls) => match find(input.subrange(ls, line_end(input, ls)), ": "@) {
                        None => None,
                        Some(k) => {
                            let msg = trim(input.skip(ls + k + 2));
                            if msg.len() == 0 {
                                None
                            } else {
                                Some(msg)
                            }
                        },
                    },
                },
            },
        }
    }
}

pub open spec fn metadata_head() -> Seq<char> {
    "Conversation info (untrusted metadata):"@
}

/// The colon command that follows a fenced metadata block.
pub open spec fn metadata_message(input: Seq<char>) -> Option<Seq<char>> {
    if !starts_with(input, metadata_head()) {
        None
    } else {
        let rest = trim_start(input.skip(metadata_head().len() as int));
        if !starts_with(rest, "```"@) {
            None
        } else {
            match find(rest, seq!['\n']) {
                None => None,
                Some(i) => {
                    let body = rest.skip(i + 1);
                    match find(body, "\n```"@) {
                        None => None,
                        Some(c) => {
                            let msg = trim(body.skip(c + 4));
                            if colon_body(msg) is Some {
                                Some(msg)
                            } else {
                                None
                            }
                        },
                    }
                },
            }
        }
    }
}

/// The `content` string of a Feishu text-message event.
pub open spec fn feishu_content(event: Json) -> Option<Seq<char>> {
    let msg = jget_opt(jget(event, "event"@), "message"@);
    if jstr(jget_opt(msg, "message_type"@)) == Some("text"@) {
        jstr(jget_opt(msg, "content"@))
    } else {
        None
    }
}

/// The `text` member of a parsed Feishu message content.
pub open spec fn content_text(content: Json) -> Option<Seq<char>> {
    jstr(jget(content, "text"@))
}

pub open spec fn items_text(items: Seq<Json>) -> Option<Seq<char>>
    decreases items.len(),
{
    if items.len() == 0 {
        None
    } else {
        match jstr(jget_opt(jget(items[0], "text_item"@), "text"@)) {
            Some(t) => Some(t),
            None => items_text(items.drop_first()),
        }
    }
}

pub open spec fn msgs_text(msgs: Seq<Json>) -> Option<Seq<char>>
    decreases msgs.len(),
{
    if msgs.len() == 0 {
        None
    } else {
        match jarray(jget(msgs[0], "item_list"@)) {
            Some(items) => match items_text(items) {
                Some(t) => Some(t),
                None => msgs_text(msgs.drop_first()),
            },
            None => msgs_text(msgs.drop_first()),
        }
    }
}

/// The first text item of a Weixin `getupdates` payload.
pub open spec fn weixin_text(event: Json) -> Option<Seq<char>> {
    match jarray(jget(event, "msgs"@)) {
        Some(msgs) => msgs_text(msgs),
        None => None,
    }
}

/// Non-empty trimmed text.
pub open spec fn nonempty_trimmed(t: Option<Seq<char>>) -> Option<Seq<char>> {
    match t {
        Some(x) => if trim(x).len() > 0 {
            Some(trim(x))
        } else {
            None
        },
        None => None,
    }
}

/// The text message inside a raw Feishu or Weixin event delivered as JSON.
pub open spec fn channel_text(input: Seq<char>) -> Option<Seq<char>> {
    match json_parse(input) {
        None => None,
        Some(event) => {
            let feishu = match feishu_content(event) {
                Some(c) => match json_parse(c) {
                    Some(content) => content_text(content),
                    None => None,
                },
                None => None,
            };
            if feishu is Some {
                nonempty_trimmed(feishu)
            } else {
                nonempty_trimmed(weixin_text(event))
            }
        },
    }
}

/// The command text inside an input, when it is wrapped by the channel.
pub open spec fn command_input_candidate(input: Seq<char>) -> Option<Seq<char>> {
    let t = trim(input);
    if colon_body(t) is Some {
        Some(t)
    } else if decorated_message(t) is Some {
        decorated_message(t)
    } else if metadata_message(t) is Some {
        metadata_message(t)
    } else {
        channel_text(t)
    }
}

/// The command text that is traced for an input: the trimmed input when it
/// is a colon command, else the colon command lifted from an
/// OpenClaw-decorated or metadata-wrapped input, else the input unchanged.
/// (A plain message is still extracted from its wrapping for Codex; the
/// trace keeps such input as it came.)
pub open spec fn traced_input(input: Seq<char>) -> Seq<char> {
    let t = trim(input);
    if colon_body(t) is Some {
        t
    } else {
        match decorated_message(t) {
            Some(m) if colon_body(m) is Some => m,
            _ => match metadata_message(t) {
                Some(m) => m,
                None => input,
            },
        }
    }
}

pub open spec fn command_input(input: Seq<char>) -> Seq<char> {
    match command_input_candidate(input) {
        Some(c) => c,
        None => input,
    }
}

fn colon_command_body(s: &[char]) -> (r: Option<Vec<char>>)
    ensures
        opt_seq(r) == colon_body(s@),
{
    if s.len() == 0 || s[0] != ':' {
        return None;
    }
    let body = &s[1..s.len()];
    assert(body@ =~= s@.drop_first());
    let t = trim_start_slice(body);
    let n = leading_word_len(t);
    let w = &t[0..n];
    assert(w@ =~= t@.take(n as int));
    if n > 0 && all_ident_slice(w) {
        let mut out: Vec<char> = Vec::new();
        out.extend_from_slice(body);
        Some(out)
    } else {
        None
    }
}

pub(crate) fn decorated_message_exec(input: &[char]) -> (r: Option<Vec<char>>)
    ensures
        opt_seq(r) == decorated_message(input@),
{
    if !(lit_contains(input, "[message_id:") || lit_contains(
        input,
        "Conversation info (untrusted metadata)",
    )) {
        return None;
    }
    let marker = str_chars("[message_id:");
    let m = match rfind_slice(input, marker.as_slice()) {
        Some(m) => m,
        None => return None,
    };
    let nl_pat = str_chars("\n");
    proof {
        reveal_strlit("\n");
        assert(nl_pat@ =~= seq!['\n']);
    }
    let found_nl = find_from_slice(input, nl_pat.as_slice(), m);
    proof {
        crate::text::lemma_find_from_props(input@, nl_pat@, m as int);
    }
    let nl = match found_nl {
        Some(nl) => nl,
        None => return None,
    };
    let n = input.len();
    assert(nl + 1 <= n);
    let ls = match first_nonblank_line_exec(input, nl + 1) {
        Some(ls) => ls,
        None => return None,
    };
    let e = line_end_exec(input, ls);
    let line = &input[ls..e];
    let sep = str_chars(": ");
    let k = match find_slice(line, sep.as_slice()) {
        Some(k) => k,
        None => return None,
    };
    proof {
        crate::text::lemma_find_from_props(line@, sep@, 0);
        reveal_strlit(": ");
    }
    let rest = &input[ls + k + 2..input.len()];
    assert(rest@ =~= input@.skip(ls + k + 2));
    let msg = trim_slice(rest);
    if msg.len() == 0 {
        None
    } else {
        let mut out: Vec<char> = Vec::new();
        out.extend_from_slice(msg);
        Some(out)
    }
}

fn metadata_message_exec(input: &[char]) -> (r: Option<Vec<char>>)
    ensures
        opt_seq(r) == metadata_message(input@),
{
    let after = match lit_strip(input, "Conversation info (untrusted metadata):") {
        Some(after) => after,
        None => return None,
    };
    let rest = trim_start_slice(after);
    if !lit_starts(rest, "```") {
        return None;
    }
    let nl_pat = str_chars("\n");
    proof {
        reveal_strlit("\n");
        assert(nl_pat@ =~= seq!['\n']);
    }
    let found_i = find_slice(rest, nl_pat.as_slice());
    proof {
        crate::text::lemma_find_from_props(rest@, nl_pat@, 0);
    }
    let i = match found_i {
        Some(i) => i,
        None => return None,
    };
    let rest_len = rest.len();
    assert(i + 1 <= rest_len);
    let body = &rest[i + 1..rest_len];
    assert(body@ =~= rest@.skip(i + 1));
    let fence = str_chars("\n```");
    let c = match find_slice(body, fence.as_slice()) {
        Some(c) => c,
        None => return None,
    };
    proof {
        crate::text::lemma_find_from_props(body@, fence@, 0);
        reveal_strlit("\n```");
    }
    let tail = &body[c + 4..body.len()];
    assert(tail@ =~= body@.skip(c + 4));
    let msg = trim_slice(tail);
    if colon_command_body(msg).is_some() {
        let mut out: Vec<char> = Vec::new();
        out.extend_from_slice(msg);
        Some(out)
    } else {
        None
    }
}

/// The `content` string of a Feishu text-message event.
pub fn feishu_event_content(event: &JsonValue) -> (r: Option<String>)
    ensures
        opt_string(r) == feishu_content(event@),
{
    let ev_key = str_chars("event");
    let msg_key = str_chars("message");
    let msg = json_get_opt(json_get(event, ev_key.as_slice()), msg_key.as_slice());
    let type_key = str_chars("message_type");
    let text_lit = str_chars("text");
    match json_str_field(msg, type_key.as_slice()) {
        Some(t) => {
            if !crate::text::eq_slices(t.as_slice(), text_lit.as_slice()) {
                return None;
            }
        },
        None => return None,
    }
    let content_key = str_chars("content");
    match json_str_field(msg, content_key.as_slice()) {
        Some(c) => Some(chars_to_string(c.as_slice())),
        None => None,
    }
}

/// The `text` member of a parsed Feishu message content.
pub fn feishu_content_text(content: &JsonValue) -> (r: Option<String>)
    ensures
        opt_string(r) == content_text(content@),
{
    let key = str_chars("text");
    match json_str_field(Some(content), key.as_slice()) {
        Some(t) => Some(chars_to_string(t.as_slice())),
        None => None,
    }
}

fn items_text_exec(items: &Vec<JsonValue>) -> (r: Option<Vec<char>>)
    ensures
        opt_seq(r) == items_text(views(items@)),
{
    let item_key = str_chars("text_item");
    let text_key = str_chars("text");
    let mut i: usize = 0;
    let ghost vs = views(items@);
    assert(vs.skip(0) =~= vs);
    while i < items.len()
        invariant
            i <= items.len(),
            vs == views(items@),
            item_key@ == "text_item"@,
            text_key@ == "text"@,
            items_text(vs) == items_text(vs.skip(i as int)),
        decreases items.len() - i,
    {
        assert(vs.skip(i as int)[0] == items@[i as int]@);
        assert(vs.skip(i as int).drop_first() =~= vs.skip(i + 1));
        let item = &items[i];
        let sub = json_get(item, item_key.as_slice());
        let found = json_str_field(sub, text_key.as_slice());
        assert(opt_seq(found) == jstr(jget_opt(jget(items@[i as int]@, "text_item"@), "text"@)));
        if found.is_some() {
            return found;
        }
        i += 1;
    }
    None
}

/// The first text item of a Weixin `getupdates` payload.
pub fn weixin_event_text(event: &JsonValue) -> (r: Option<String>)
    ensures
        opt_string(r) == weixin_text(event@),
{
    let msgs_key = str_chars("msgs");
    let list_key = str_chars("item_list");
    let msgs = match json_as_array(json_get(event, msgs_key.as_slice())) {
        Some(m) => m,
        None => return None,
    };
    let mut i: usize = 0;
    let ghost vs = views(msgs@);
    assert(vs.skip(0) =~= vs);
    while i < msgs.len()
        invariant
            i <= msgs.len(),
            vs == views(msgs@),
            list_key@ == "item_list"@,
            jarray(jget(event@, "msgs"@)) == Some(vs),
            weixin_text(event@) == msgs_text(vs.skip(i as int)),
        decreases msgs.len() - i,
    {
        assert(vs.skip(i as int)[0] == msgs@[i as int]@);
        assert(vs.skip(i as int).drop_first() =~= vs.skip(i + 1));
        let msg = &msgs[i];
        let list = json_get(msg, list_key.as_slice());
        let arr = json_as_array(list);
        assert(arr is None ==> jarray(jget(msgs@[i as int]@, "item_list"@)) is None);
        match arr {
            Some(items) => {
                match items_text_exec(items) {
                    Some(t) => return Some(chars_to_string(t.as_slice())),
                    None => {},
                }
            },
            None => {},
        }
        i += 1;
    }
    None
}

fn nonempty_trimmed_exec(t: Option<String>) -> (r: Option<Vec<char>>)
    ensures
        opt_seq(r) == nonempty_trimmed(opt_string(t)),
{
    match t {
        Some(x) => {
            let chars = str_chars(x.as_str());
            let tr = trim_slice(chars.as_slice());
            if tr.len() > 0 {
                let mut out: Vec<char> = Vec::new();
                out.extend_from_slice(tr);
                Some(out)
            } else {
                None
            }
        },
        None => None,
    }
}

fn channel_text_exec(input: &[char]) -> (r: Option<Vec<char>>)
    ensures
        opt_seq(r) == channel_text(input@),
{
    let text = chars_to_string(input);
    let event = match parse_json(text.as_str()) {
        Some(e) => e,
        None => return None,
    };
    let feishu = match feishu_event_content(&event) {
        Some(c) => match parse_json(c.as_str()) {
            Some(content) => feishu_content_text(&content),
            None => None,
        },
        None => None,
    };
    if feishu.is_some() {
        nonempty_trimmed_exec(feishu)
    } else {
        nonempty_trimmed_exec(weixin_event_text(&event))
    }
}

fn command_input_candidate_exec(input: &[char]) -> (r: Option<Vec<char>>)
    ensures
        opt_seq(r) == command_input_candidate(input@),
{
    let t = trim_slice(input);
    if colon_command_body(t).is_some() {
        let mut out: Vec<char> = Vec::new();
        out.extend_from_slice(t);
        return Some(out);
    }
    let d = decorated_message_exec(t);
    if d.is_some() {
        return d;
    }
    let m = metadata_message_exec(t);
    if m.is_some() {
        return m;
    }
    channel_text_exec(t)
}

fn traced_input_exec(input: &[char]) -> (r: Vec<char>)
    ensures
        r@ == traced_input(input@),
{
    let t = trim_slice(input);
    if colon_command_body(t).is_some() {
        let mut out: Vec<char> = Vec::new();
        out.extend_from_slice(t);
        return out;
    }
    match decorated_message_exec(t) {
        Some(m) => if colon_command_body(m.as_slice()).is_some() {
            return m;
        },
        None => {},
    }
    match metadata_message_exec(t) {
        Some(m) => m,
        None => {
            let mut out: Vec<char> = Vec::new();
            out.extend_from_slice(input);
            out
        },
    }
}

fn command_input_exec(input: &[char]) -> (r: Vec<char>)
    ensures
        r@ == command_input(input@),
{
    match command_input_candidate_exec(input) {
        Some(c) => c,
        None => {
            let mut out: Vec<char> = Vec::new();
            out.extend_from_slice(input);
            out
        },
    }
}


// ---------------------------------------------------------------------------
// Local `:` commands
// ---------------------------------------------------------------------------

pub open spec fn path_arg(v: Seq<char>, cmd: Seq<char>) -> Result<Seq<char>, Seq<char>> {
    if trim(v).len() == 0 {
        Err(cmd + " expects a path"@)
    } else {
        Ok(trim(v))
    }
}

pub open spec fn single_arg(v: Seq<char>, cmd: Seq<char>) -> Result<Seq<char>, Seq<char>> {
    if trim(v).len() == 0 || has_ws(trim(v)) {
        Err(cmd + " expects one value"@)
    } else {
        Ok(trim(v))
    }
}

pub open spec fn approval_id_arg(v: Seq<char>, cmd: Seq<char>) -> Result<Seq<char>, Seq<char>> {
    let x = trim(v);
    if x.len() == 0 || has_ws(x) {
        Err(cmd + " expects one approval id"@)
    } else if !all_ident_chars(x) {
        Err(cmd + " approval id contains invalid characters"@)
    } else {
        Ok(x)
    }
}

pub open spec fn shell_error() -> Seq<char> {
    ":shell expects a command"@
}

pub open spec fn sessions_removed_error() -> Seq<char> {
    "`:sessions` was removed; use `:resume` to resume the previous Codex session."@
}

pub open spec fn yolo_error() -> Seq<char> {
    ":yolo expects true or false"@
}

pub open spec fn yolo_value(v: Seq<char>) -> Result<bool, Seq<char>> {
    match single_arg(v, ":yolo"@) {
        Err(e) => Err(e),
        Ok(x) => {
            let l = ascii_lower(x);
            if l == "true"@ || l == "on"@ || l == "1"@ {
                Ok(true)
            } else if l == "false"@ || l == "off"@ || l == "0"@ {
                Ok(false)
            } else {
                Err(yolo_error())
            }
        },
    }
}

pub open spec fn side_analysis_base() -> Seq<char> {
    "Handle this as a side analysis: answer without changing files unless explicitly requested, and keep it separate from the main implementation path."@
}

pub open spec fn append_details(base: Seq<char>, details: Seq<char>) -> Seq<char> {
    if details.len() == 0 {
        base
    } else {
        base + "\n\nUser request: "@ + details
    }
}

/// The side-analysis prompt that asks Codex for the status of the task.
pub open spec fn report_prompt(details: Seq<char>) -> Seq<char> {
    let request = if details.len() == 0 {
        "任务状态"@
    } else {
        "任务状态\n\n补充说明: "@ + details
    };
    append_details(side_analysis_base(), request)
}

pub open spec fn wrap_arg(
    r: Result<Seq<char>, Seq<char>>,
    f: spec_fn(Seq<char>) -> InputView,
) -> Result<Option<InputView>, Seq<char>> {
    match r {
        Ok(x) => Ok(Some(f(x))),
        Err(e) => Err(e),
    }
}

pub open spec fn after(t: Seq<char>, p: Seq<char>) -> Seq<char> {
    t.skip(p.len() as int)
}

/// The local command that a (trimmed) input names: `Ok(None)` when it is no
/// local command, `Err` when it is one with a malformed argument.
pub open spec fn control_command(input: Seq<char>) -> Result<Option<InputView>, Seq<char>> {
    let t = trim(input);
    if t == ":help"@ || t == ":commands"@ {
        Ok(Some(InputView::Help))
    } else if t == ":status"@ {
        Ok(Some(InputView::Status))
    } else if t == ":diff"@ {
        Ok(Some(InputView::Diff))
    } else if t == ":pwd"@ {
        Ok(Some(InputView::Pwd))
    } else if t == ":stop"@ {
        Ok(Some(InputView::Stop))
    } else if t == ":ls"@ {
        Ok(Some(InputView::Ls("."@)))
    } else if starts_with(t, ":ls "@) {
        wrap_arg(path_arg(after(t, ":ls "@), ":ls"@), |p: Seq<char>| InputView::Ls(p))
    } else if starts_with(t, ":cat "@) {
        wrap_arg(path_arg(after(t, ":cat "@), ":cat"@), |p: Seq<char>| InputView::Cat(p))
    } else if starts_with(t, ":cd "@) {
        wrap_arg(path_arg(after(t, ":cd "@), ":cd"@), |p: Seq<char>| InputView::Cd(p))
    } else if t == ":shell"@ {
        Err(shell_error())
    } else if starts_with(t, ":shell "@) {
        let c = trim(after(t, ":shell "@));
        if c.len() == 0 {
            Err(shell_error())
        } else {
            Ok(Some(InputView::Shell(c)))
        }
    } else if t == ":model"@ {
        Ok(Some(InputView::ModelShow))
    } else if t == ":models"@ {
        Ok(Some(InputView::ModelsList))
    } else if starts_with(t, ":model "@) {
        wrap_arg(single_arg(after(t, ":model "@), ":model"@), |m: Seq<char>| InputView::ModelSet(m))
    } else if t == ":yolo"@ {
        Ok(Some(InputView::Yolo(None)))
    } else if starts_with(t, ":yolo "@) {
        match yolo_value(after(t, ":yolo "@)) {
            Ok(b) => Ok(Some(InputView::Yolo(Some(b)))),
            Err(e) => Err(e),
        }
    } else if t == ":review"@ {
        Ok(Some(InputView::Review(None)))
    } else if starts_with(t, ":review "@) {
        Ok(Some(InputView::Review(Some(trim(after(t, ":review "@))))))
    } else if t == ":report"@ {
        Ok(Some(InputView::Prompt(report_prompt(Seq::empty()))))
    } else if starts_with(t, ":report "@) {
        Ok(Some(InputView::Prompt(report_prompt(trim(after(t, ":report"@))))))
    } else if t == ":sessions"@ {
        Err(sessions_removed_error())
    } else if t == ":resume"@ {
        Ok(Some(InputView::Resume(None)))
    } else if starts_with(t, ":resume "@) {
        wrap_arg(single_arg(after(t, ":resume "@), ":resume"@), |s: Seq<char>| InputView::Resume(Some(s)))
    } else if t == ":fresh"@ {
        Ok(Some(InputView::Fresh(None)))
    } else if starts_with(t, ":fresh "@) {
        let p = trim(after(t, ":fresh "@));
        if p.len() == 0 {
            Ok(Some(InputView::Fresh(None)))
        } else {
            Ok(Some(InputView::Fresh(Some(p))))
        }
    } else if t == ":approve"@ || t == ":yes"@ {
        Ok(Some(InputView::Approve(None)))
    } else if starts_with(t, ":approve "@) {
        wrap_arg(approval_id_arg(after(t, ":approve "@), ":approve"@), |a: Seq<char>| InputView::Approve(Some(a)))
    } else if starts_with(t, ":yes "@) {
        wrap_arg(approval_id_arg(after(t, ":yes "@), ":yes"@), |a: Seq<char>| InputView::Approve(Some(a)))
    } else if t == ":deny"@ || t == ":no"@ {
        Ok(Some(InputView::Deny(None)))
    } else if starts_with(t, ":deny "@) {
        wrap_arg(approval_id_arg(after(t, ":deny "@), ":deny"@), |a: Seq<char>| InputView::Deny(Some(a)))
    } else if starts_with(t, ":no "@) {
        wrap_arg(approval_id_arg(after(t, ":no "@), ":no"@), |a: Seq<char>| InputView::Deny(Some(a)))
    } else {
        Ok(None)
    }
}

pub open spec fn result_view(r: Result<BackendInput, String>) -> Result<InputView, Seq<char>> {
    match r {
        Ok(v) => Ok(v@),
        Err(e) => Err(e@),
    }
}

pub open spec fn control_result_view(r: Result<Option<BackendInput>, String>) -> Result<
    Option<InputView>,
    Seq<char>,
> {
    match r {
        Ok(Some(v)) => Ok(Some(v@)),
        Ok(None) => Ok(None),
        Err(e) => Err(e@),
    }
}

fn owned_chars(s: &[char]) -> (r: String)
    ensures
        r@ == s@,
{
    chars_to_string(s)
}

fn lit_string(lit: &str) -> (r: String)
    ensures
        r@ == lit@,
{
    lit.to_owned()
}

/// `cmd` followed by the literal `msg`, as an error message.
fn error_with(cmd: &str, msg: &str) -> (r: String)
    ensures
        r@ == cmd@ + msg@,
{
    let c = str_chars(cmd);
    let v = with_lit(c.as_slice(), msg);
    chars_to_string(v.as_slice())
}

fn parse_path_arg(v: &[char], cmd: &str) -> (r: Result<String, String>)
    ensures
        match r {
            Ok(x) => path_arg(v@, cmd@) == Ok::<Seq<char>, Seq<char>>(x@),
            Err(e) => path_arg(v@, cmd@) == Err::<Seq<char>, Seq<char>>(e@),
        },
{
    let x = trim_slice(v);
    if x.len() == 0 {
        Err(error_with(cmd, " expects a path"))
    } else {
        Ok(owned_chars(x))
    }
}

fn parse_single_arg(v: &[char], cmd: &str) -> (r: Result<String, String>)
    ensures
        match r {
            Ok(x) => single_arg(v@, cmd@) == Ok::<Seq<char>, Seq<char>>(x@),
            Err(e) => single_arg(v@, cmd@) == Err::<Seq<char>, Seq<char>>(e@),
        },
{
    let x = trim_slice(v);
    if x.len() == 0 || has_ws_slice(x) {
        Err(error_with(cmd, " expects one value"))
    } else {
        Ok(owned_chars(x))
    }
}

fn parse_approval_id(v: &[char], cmd: &str) -> (r: Result<String, String>)
    ensures
        match r {
            Ok(x) => approval_id_arg(v@, cmd@) == Ok::<Seq<char>, Seq<char>>(x@),
            Err(e) => approval_id_arg(v@, cmd@) == Err::<Seq<char>, Seq<char>>(e@),
        },
{
    let x = trim_slice(v);
    if x.len() == 0 || has_ws_slice(x) {
        Err(error_with(cmd, " expects one approval id"))
    } else if !all_ident_slice(x) {
        Err(error_with(cmd, " approval id contains invalid characters"))
    } else {
        Ok(owned_chars(x))
    }
}

fn parse_yolo_value(v: &[char]) -> (r: Result<bool, String>)
    ensures
        match r {
            Ok(b) => yolo_value(v@) == Ok::<bool, Seq<char>>(b),
            Err(e) => yolo_value(v@) == Err::<bool, Seq<char>>(e@),
        },
{
    let x = match parse_single_arg(v, ":yolo") {
        Ok(x) => x,
        Err(e) => return Err(e),
    };
    let xc = str_chars(x.as_str());
    let l = ascii_lower_slice(xc.as_slice());
    if lit_eq(l.as_slice(), "true") || lit_eq(l.as_slice(), "on") || lit_eq(l.as_slice(), "1") {
        Ok(true)
    } else if lit_eq(l.as_slice(), "false") || lit_eq(l.as_slice(), "off") || lit_eq(
        l.as_slice(),
        "0",
    ) {
        Ok(false)
    } else {
        Err(lit_string(":yolo expects true or false"))
    }
}

fn report_prompt_exec(details: &[char]) -> (r: String)
    ensures
        r@ == report_prompt(details@),
{
    let request: Vec<char> = if details.len() == 0 {
        str_chars("任务状态")
    } else {
        lit_then("任务状态\n\n补充说明: ", details)
    };
    let base = str_chars(
        "Handle this as a side analysis: answer without changing files unless explicitly requested, and keep it separate from the main implementation path.",
    );
    proof {
        reveal_strlit("任务状态");
    }
    let mut out = with_lit(base.as_slice(), "\n\nUser request: ");
    out.extend_from_slice(request.as_slice());
    chars_to_string(out.as_slice())
}

fn some_input(v: BackendInput) -> (r: Result<Option<BackendInput>, String>)
    ensures
        r == Ok::<Option<BackendInput>, String>(Some(v)),
{
    Ok(Some(v))
}

/// Recognises a local command (see `control_command`).
fn parse_control_command(input: &[char]) -> (r: Result<Option<BackendInput>, String>)
    ensures
        control_result_view(r) == control_command(input@),
{
    let t = trim_slice(input);
    if lit_eq(t, ":help") || lit_eq(t, ":commands") {
        return some_input(BackendInput::Help);
    }
    if lit_eq(t, ":status") {
        return some_input(BackendInput::Status);
    }
    if lit_eq(t, ":diff") {
        return some_input(BackendInput::Diff);
    }
    if lit_eq(t, ":pwd") {
        return some_input(BackendInput::Pwd);
    }
    if lit_eq(t, ":stop") {
        return some_input(BackendInput::Stop);
    }
    if lit_eq(t, ":ls") {
        return some_input(BackendInput::Ls { path: lit_string(".") });
    }
    if let Some(rest) = lit_strip(t, ":ls ") {
        return match parse_path_arg(rest, ":ls") {
            Ok(path) => Ok(Some(BackendInput::Ls { path })),
            Err(e) => Err(e),
        };
    }
    if let Some(rest) = lit_strip(t, ":cat ") {
        return match parse_path_arg(rest, ":cat") {
            Ok(path) => Ok(Some(BackendInput::Cat { path })),
            Err(e) => Err(e),
        };
    }
    if let Some(rest) = lit_strip(t, ":cd ") {
        return match parse_path_arg(rest, ":cd") {
            Ok(path) => Ok(Some(BackendInput::Cd { path })),
            Err(e) => Err(e),
        };
    }
    if lit_eq(t, ":shell") {
        return Err(lit_string(":shell expects a command"));
    }
    if let Some(rest) = lit_strip(t, ":shell ") {
        let c = trim_slice(rest);
        if c.len() == 0 {
            return Err(lit_string(":shell expects a command"));
        }
        return some_input(BackendInput::Shell { command: owned_chars(c) });
    }
    if lit_eq(t, ":model") {
        return some_input(BackendInput::ModelShow);
    }
    if lit_eq(t, ":models") {
        return some_input(BackendInput::ModelsList);
    }
    if let Some(rest) = lit_strip(t, ":model ") {
        return match parse_single_arg(rest, ":model") {
            Ok(model) => Ok(Some(BackendInput::ModelSet { model })),
            Err(e) => Err(e),
        };
    }
    if lit_eq(t, ":yolo") {
        return some_input(BackendInput::Yolo { enabled: None });
    }
    if let Some(rest) = lit_strip(t, ":yolo ") {
        return match parse_yolo_value(rest) {
            Ok(b) => Ok(Some(BackendInput::Yolo { enabled: Some(b) })),
            Err(e) => Err(e),
        };
    }
    if lit_eq(t, ":review") {
        return some_input(BackendInput::Review { instructions: None });
    }
    if let Some(rest) = lit_strip(t, ":review ") {
        let instructions = owned_chars(trim_slice(rest));
        return some_input(BackendInput::Review { instructions: Some(instructions) });
    }
    if lit_eq(t, ":report") {
        let empty: Vec<char> = Vec::new();
        return some_input(BackendInput::Prompt(report_prompt_exec(empty.as_slice())));
    }
    if lit_starts(t, ":report ") {
        let rest = match lit_strip(t, ":report") {
            Some(rest) => rest,
            None => {
                proof {
                    reveal_strlit(":report ");
                    reveal_strlit(":report");
                    assert(t@.take(":report"@.len() as int) =~= ":report"@);
                }
                return Ok(None);
            },
        };
        return some_input(BackendInput::Prompt(report_prompt_exec(trim_slice(rest))));
    }
    if lit_eq(t, ":sessions") {
        return Err(
            lit_string(
                "`:sessions` was removed; use `:resume` to resume the previous Codex session.",
            ),
        );
    }
    if lit_eq(t, ":resume") {
        return some_input(BackendInput::Resume { session_id: None });
    }
    if let Some(rest) = lit_strip(t, ":resume ") {
        return match parse_single_arg(rest, ":resume") {
            Ok(id) => Ok(Some(BackendInput::Resume { session_id: Some(id) })),
            Err(e) => Err(e),
        };
    }
    if lit_eq(t, ":fresh") {
        return some_input(BackendInput::Fresh { prompt: None });
    }
    if let Some(rest) = lit_strip(t, ":fresh ") {
        let p = trim_slice(rest);
        if p.len() == 0 {
            return some_input(BackendInput::Fresh { prompt: None });
        }
        return some_input(BackendInput::Fresh { prompt: Some(owned_chars(p)) });
    }
    if lit_eq(t, ":approve") || lit_eq(t, ":yes") {
        return some_input(BackendInput::Approve { approval_id: None });
    }
    if let Some(rest) = lit_strip(t, ":approve ") {
        return match parse_approval_id(rest, ":approve") {
            Ok(id) => Ok(Some(BackendInput::Approve { approval_id: Some(id) })),
            Err(e) => Err(e),
        };
    }
    if let Some(rest) = lit_strip(t, ":yes ") {
        return match parse_approval_id(rest, ":yes") {
            Ok(id) => Ok(Some(BackendInput::Approve { approval_id: Some(id) })),
            Err(e) => Err(e),
        };
    }
    if lit_eq(t, ":deny") || lit_eq(t, ":no") {
        return some_input(BackendInput::Deny { approval_id: None });
    }
    if let Some(rest) = lit_strip(t, ":deny ") {
        return match parse_approval_id(rest, ":deny") {
            Ok(id) => Ok(Some(BackendInput::Deny { approval_id: Some(id) })),
            Err(e) => Err(e),
        };
    }
    if let Some(rest) = lit_strip(t, ":no ") {
        return match parse_approval_id(rest, ":no") {
            Ok(id) => Ok(Some(BackendInput::Deny { approval_id: Some(id) })),
            Err(e) => Err(e),
        };
    }
    Ok(None)
}


// ---------------------------------------------------------------------------
// Custom commands and the input handed to the backend
// ---------------------------------------------------------------------------

pub struct RenderedView {
    pub name: Seq<char>,
    pub prompt: Seq<char>,
    pub require_confirm: bool,
}

impl View for RenderedCommand {
    type V = RenderedView;

    open spec fn view(&self) -> RenderedView {
        RenderedView {
            name: self.command_name@,
            prompt: self.prompt@,
            require_confirm: self.require_confirm,
        }
    }
}

pub open spec fn message_placeholder() -> Seq<char> {
    "{{message}}"@
}

/// The first configured command whose prefix starts `input`, with its
/// template filled by the trimmed rest of the input.
pub open spec fn render_configured(cs: Seq<CustomCommand>, input: Seq<char>) -> Option<RenderedView>
    decreases cs.len(),
{
    if cs.len() == 0 {
        None
    } else if starts_with(input, cs[0].prefix@) {
        Some(
            RenderedView {
                name: cs[0].name@,
                prompt: replace(
                    cs[0].prompt@,
                    message_placeholder(),
                    trim(input.skip(cs[0].prefix@.len() as int)),
                ),
                require_confirm: cs[0].require_confirm,
            },
        )
    } else {
        render_configured(cs.drop_first(), input)
    }
}

/// A configured command matches the recognised input itself or, for a
/// colon command `:x`, its slash form `/x`.
pub open spec fn render_spec(cs: Seq<CustomCommand>, input: Seq<char>) -> Option<RenderedView> {
    let t = match command_input_candidate(input) {
        Some(c) => c,
        None => trim(input),
    };
    match render_configured(cs, t) {
        Some(r) => Some(r),
        None => match colon_body(t) {
            Some(b) => render_configured(cs, "/"@ + b),
            None => None,
        },
    }
}

/// A colon command becomes the matching Codex slash command; other input is
/// passed on unchanged.
pub open spec fn normalize_prompt(input: Seq<char>) -> Seq<char> {
    match colon_body(trim(input)) {
        Some(b) => "/"@ + b,
        None => input,
    }
}

/// Codex's own slash commands that wecode forwards from their colon form.
pub open spec fn is_codex_command(w: Seq<char>) -> bool {
    ||| w == "init"@
    ||| w == "new"@
    ||| w == "compact"@
    ||| w == "plan"@
    ||| w == "goal"@
    ||| w == "agent"@
    ||| w == "side"@
}

/// A colon command that is neither local nor one of Codex's commands.
pub open spec fn unknown_command(input: Seq<char>) -> Option<Seq<char>> {
    match colon_body(trim(input)) {
        Some(b) => {
            let w = leading_word(trim_start(b));
            if is_codex_command(w) {
                None
            } else {
                Some(":"@ + w)
            }
        },
        None => None,
    }
}

/// A bare answer to a pending approval.
pub open spec fn plain_answer(input: Seq<char>) -> Option<InputView> {
    let l = ascii_lower(trim(input));
    if l == "yes"@ || l == "approve"@ {
        Some(InputView::Approve(None))
    } else if l == "no"@ || l == "deny"@ {
        Some(InputView::Deny(None))
    } else {
        None
    }
}

pub open spec fn answers_approval(v: InputView) -> bool {
    v is Approve || v is Deny || v is Stop
}

/// What the backend does with `input`.  While an approval is pending only
/// approval answers and `:stop` are taken; anything else waits.
pub open spec fn backend_input(cs: Seq<CustomCommand>, input: Seq<char>, pending: bool) -> Result<
    InputView,
    Seq<char>,
> {
    let ci = command_input(input);
    if pending {
        match plain_answer(ci) {
            Some(a) => Ok(a),
            None => match control_command(ci) {
                Ok(Some(v)) => if answers_approval(v) {
                    Ok(v)
                } else {
                    Ok(InputView::AwaitingApproval)
                },
                _ => Ok(InputView::AwaitingApproval),
            },
        }
    } else {
        match control_command(ci) {
            Err(e) => Err(e),
            Ok(Some(v)) => Ok(v),
            Ok(None) => match render_spec(cs, ci) {
                Some(r) => if r.require_confirm {
                    Ok(InputView::ApprovalRequired(r.name, r.prompt))
                } else {
                    Ok(InputView::Prompt(r.prompt))
                },
                None => match unknown_command(ci) {
                    Some(c) => Ok(InputView::UnknownCommand(c)),
                    None => Ok(InputView::Prompt(normalize_prompt(ci))),
                },
            },
        }
    }
}

pub open spec fn confirmation_error(name: Seq<char>) -> Seq<char> {
    "command `"@ + name + "` requires confirmation, which is not available in codex-backend"@
}

/// The prompt for a one-shot backend run, which cannot ask for confirmation.
pub open spec fn backend_prompt(cs: Seq<CustomCommand>, input: Seq<char>) -> Result<
    Seq<char>,
    Seq<char>,
> {
    let ci = command_input(input);
    match render_spec(cs, ci) {
        Some(r) => if r.require_confirm {
            Err(confirmation_error(r.name))
        } else {
            Ok(r.prompt)
        },
        None => Ok(normalize_prompt(ci)),
    }
}

pub open spec fn opt_rendered(r: Option<RenderedCommand>) -> Option<RenderedView> {
    match r {
        Some(c) => Some(c@),
        None => None,
    }
}

fn render_configured_command(commands: &Vec<CustomCommand>, input: &[char]) -> (r: Option<
    RenderedCommand,
>)
    ensures
        opt_rendered(r) == render_configured(commands@, input@),
{
    let placeholder = str_chars("{{message}}");
    proof {
        reveal_strlit("{{message}}");
    }
    let mut i: usize = 0;
    assert(commands@.skip(0) =~= commands@);
    while i < commands.len()
        invariant
            i <= commands.len(),
            placeholder@ == message_placeholder(),
            placeholder@.len() > 0,
            render_configured(commands@, input@) == render_configured(
                commands@.skip(i as int),
                input@,
            ),
        decreases commands.len() - i,
    {
        let command = &commands[i];
        assert(commands@.skip(i as int)[0] == commands@[i as int]);
        assert(commands@.skip(i as int).drop_first() =~= commands@.skip(i + 1));
        let prefix = str_chars(command.prefix.as_str());
        if let Some(rest) = strip_prefix_slice_local(input, prefix.as_slice()) {
            let message = trim_slice(rest);
            let template = str_chars(command.prompt.as_str());
            let prompt = replace_slice(template.as_slice(), placeholder.as_slice(), message);
            return Some(
                RenderedCommand {
                    command_name: command.name.clone(),
                    prompt: chars_to_string(prompt.as_slice()),
                    require_confirm: command.require_confirm,
                },
            );
        }
        i += 1;
    }
    None
}

fn strip_prefix_slice_local<'a>(s: &'a [char], p: &[char]) -> (r: Option<&'a [char]>)
    ensures
        r is Some == starts_with(s@, p@),
        r matches Some(rest) ==> rest@ == s@.skip(p@.len() as int),
{
    crate::text::strip_prefix_slice(s, p)
}

fn render_exec(config: &WecodeConfig, input: &[char]) -> (r: Option<RenderedCommand>)
    ensures
        opt_rendered(r) == render_spec(config.commands@, input@),
{
    let candidate = command_input_candidate_exec(input);
    let t: Vec<char> = match candidate {
        Some(c) => c,
        None => {
            let mut out: Vec<char> = Vec::new();
            out.extend_from_slice(trim_slice(input));
            out
        },
    };
    assert(t@ == match command_input_candidate(input@) {
        Some(c) => c,
        None => trim(input@),
    });
    let direct = render_configured_command(&config.commands, t.as_slice());
    if direct.is_some() {
        return direct;
    }
    match colon_command_body(t.as_slice()) {
        Some(b) => {
            let slash = lit_then("/", b.as_slice());
            render_configured_command(&config.commands, slash.as_slice())
        },
        None => None,
    }
}

/// Fills the template of the configured command that `input` names.
pub fn render_command_input(config: &WecodeConfig, input: &str) -> (r: Option<RenderedCommand>)
    ensures
        opt_rendered(r) == render_spec(config.commands@, input@),
{
    let chars = str_chars(input);
    render_exec(config, chars.as_slice())
}

fn normalize_prompt_exec(input: &[char]) -> (r: String)
    ensures
        r@ == normalize_prompt(input@),
{
    match colon_command_body(trim_slice(input)) {
        Some(b) => {
            let v = lit_then("/", b.as_slice());
            chars_to_string(v.as_slice())
        },
        None => chars_to_string(input),
    }
}

fn is_codex_command_exec(w: &[char]) -> (r: bool)
    ensures
        r == is_codex_command(w@),
{
    lit_eq(w, "init") || lit_eq(w, "new") || lit_eq(w, "compact") || lit_eq(w, "plan") || lit_eq(
        w,
        "goal",
    ) || lit_eq(w, "agent") || lit_eq(w, "side")
}

fn unknown_command_exec(input: &[char]) -> (r: Option<String>)
    ensures
        opt_string(r) == unknown_command(input@),
{
    match colon_command_body(trim_slice(input)) {
        Some(b) => {
            let t = trim_start_slice(b.as_slice());
            let n = leading_word_len(t);
            let w = &t[0..n];
            assert(w@ =~= t@.take(n as int));
            if is_codex_command_exec(w) {
                None
            } else {
                let v = lit_then(":", w);
                Some(chars_to_string(v.as_slice()))
            }
        },
        None => None,
    }
}

fn plain_answer_exec(input: &[char]) -> (r: Option<BackendInput>)
    ensures
        r matches Some(v) ==> plain_answer(input@) == Some(v@),
        r is None ==> plain_answer(input@) is None,
{
    let l = ascii_lower_slice(trim_slice(input));
    if lit_eq(l.as_slice(), "yes") || lit_eq(l.as_slice(), "approve") {
        Some(BackendInput::Approve { approval_id: None })
    } else if lit_eq(l.as_slice(), "no") || lit_eq(l.as_slice(), "deny") {
        Some(BackendInput::Deny { approval_id: None })
    } else {
        None
    }
}

fn answers_approval_exec(v: &BackendInput) -> (r: bool)
    ensures
        r == answers_approval(v@),
{
    match v {
        BackendInput::Approve { .. } => true,
        BackendInput::Deny { .. } => true,
        BackendInput::Stop => true,
        _ => false,
    }
}

/// Recognises the input and decides what the backend does with it.
/// `approval_pending` tells whether a Codex approval is waiting for an answer.
pub fn prepare_backend_input_with_trace(
    config: &WecodeConfig,
    input: &str,
    approval_pending: bool,
) -> (r: Result<PreparedBackendInput, String>)
    ensures
        match r {
            Ok(p) => p.command_input@ == traced_input(input@) && backend_input(
                config.commands@,
                input@,
                approval_pending,
            ) == Ok::<InputView, Seq<char>>(p.input@),
            Err(e) => backend_input(config.commands@, input@, approval_pending) == Err::<
                InputView,
                Seq<char>,
            >(e@),
        },
{
    let chars = str_chars(input);
    let ci = command_input_exec(chars.as_slice());
    let command_input = chars_to_string(traced_input_exec(chars.as_slice()).as_slice());
    let input = if approval_pending {
        match plain_answer_exec(ci.as_slice()) {
            Some(a) => a,
            None => match parse_control_command(ci.as_slice()) {
                Ok(Some(v)) => if answers_approval_exec(&v) {
                    v
                } else {
                    BackendInput::AwaitingApproval
                },
                _ => BackendInput::AwaitingApproval,
            },
        }
    } else {
        match parse_control_command(ci.as_slice()) {
            Err(e) => return Err(e),
            Ok(Some(v)) => v,
            Ok(None) => match render_exec(config, ci.as_slice()) {
                Some(r) => if r.require_confirm {
                    BackendInput::ApprovalRequired { command_name: r.command_name, prompt: r.prompt }
                } else {
                    BackendInput::Prompt(r.prompt)
                },
                None => match unknown_command_exec(ci.as_slice()) {
                    Some(c) => BackendInput::UnknownCommand { command: c },
                    None => BackendInput::Prompt(normalize_prompt_exec(ci.as_slice())),
                },
            },
        }
    };
    Ok(PreparedBackendInput { command_input, input })
}

/// What the backend does with `input` (see `prepare_backend_input_with_trace`).
pub fn prepare_backend_input(config: &WecodeConfig, input: &str, approval_pending: bool) -> (r:
    Result<BackendInput, String>)
    ensures
        result_view(r) == backend_input(config.commands@, input@, approval_pending),
{
    match prepare_backend_input_with_trace(config, input, approval_pending) {
        Ok(p) => Ok(p.input),
        Err(e) => Err(e),
    }
}

/// The prompt for a one-shot backend run; commands that need confirmation
/// are refused.
pub fn prepare_backend_prompt(config: &WecodeConfig, input: &str) -> (r: Result<String, String>)
    ensures
        match r {
            Ok(p) => backend_prompt(config.commands@, input@) == Ok::<Seq<char>, Seq<char>>(p@),
            Err(e) => backend_prompt(config.commands@, input@) == Err::<Seq<char>, Seq<char>>(
                e@,
            ),
        },
{
    let chars = str_chars(input);
    let ci = command_input_exec(chars.as_slice());
    match render_exec(config, ci.as_slice()) {
        Some(r) => if r.require_confirm {
            let name = str_chars(r.command_name.as_str());
            let head = lit_then("command `", name.as_slice());
            let msg = with_lit(
                head.as_slice(),
                "` requires confirmation, which is not available in codex-backend",
            );
            Err(chars_to_string(msg.as_slice()))
        } else {
            Ok(r.prompt)
        },
        None => Ok(normalize_prompt_exec(ci.as_slice())),
    }
}

// ---------------------------------------------------------------------------
// Laws
// ---------------------------------------------------------------------------

/// While an approval is pending, nothing reaches Codex: the input is an
/// answer to the approval, `:stop`, or it waits.
pub proof fn law_pending_approval_holds_prompts(cs: Seq<CustomCommand>, input: Seq<char>)
    ensures
        backend_input(cs, input, true) matches Ok(v) && (answers_approval(v)
            || v is AwaitingApproval),
{
}

/// While an approval is pending, a bare `yes`/`approve` approves and a bare
/// `no`/`deny` denies (the approval is the only pending one).
pub proof fn law_bare_answer_settles_pending_approval(cs: Seq<CustomCommand>, input: Seq<char>)
    requires
        plain_answer(command_input(input)) is Some,
    ensures
        backend_input(cs, input, true) == Ok::<InputView, Seq<char>>(
            plain_answer(command_input(input))->0,
        ),
{
}

/// A bare `:ls` (with any surrounding whitespace) lists the project
/// directory itself: its path is `.`, whatever commands are configured.
pub proof fn law_bare_ls_lists_project_dir(cs: Seq<CustomCommand>, input: Seq<char>)
    requires
        trim(input) == ":ls"@,
    ensures
        control_command(input) == Ok::<Option<InputView>, Seq<char>>(Some(InputView::Ls("."@))),
        backend_input(cs, input, false) == Ok::<InputView, Seq<char>>(InputView::Ls("."@)),
{
    reveal_strlit(":ls");
    reveal_strlit(":help");
    reveal_strlit(":commands");
    reveal_strlit(":status");
    reveal_strlit(":diff");
    reveal_strlit(":pwd");
    reveal_strlit(":stop");
    let t = ":ls"@;
    assert(t.len() == 3 && t[0] == ':' && t[1] == 'l' && t[2] == 's');
    assert(t != ":help"@);
    assert(t != ":commands"@);
    assert(t != ":status"@);
    assert(t != ":diff"@);
    assert(t != ":pwd"@);
    assert(t != ":stop"@);
    // `:ls` is a colon command, so it is its own command input.
    let body = t.drop_first();
    assert(body =~= seq!['l', 's']);
    assert(!crate::text::is_ws('l'));
    crate::text::lemma_trim_start_fixed(body);
    assert(leading_word(body.drop_first().drop_first()) =~= Seq::<char>::empty());
    assert(leading_word(body.drop_first()) =~= seq!['s']);
    assert(leading_word(body) =~= body);
    assert(crate::text::is_ident_char('l') && crate::text::is_ident_char('s'));
    assert(colon_body(t) is Some);
    assert(command_input_candidate(input) == Some(t));
    assert(command_input(input) == t);
    crate::text::lemma_trim_start_fixed(t);
    assert(trim(t) == t);
}

/// Text whose first and last characters are not whitespace is its own trim.
proof fn lemma_trim_unchanged(s: Seq<char>)
    requires
        s.len() > 0,
        !is_ws(s[0]),
        !is_ws(s.last()),
    ensures
        trim(s) == s,
{
    crate::text::lemma_trim_start_fixed(s);
}

/// `:ls <path>` lists and `:cd <path>` enters exactly the path that was
/// given, for every path without surrounding whitespace.
pub proof fn law_ls_and_cd_use_given_path(p: Seq<char>)
    requires
        p.len() > 0,
        !is_ws(p[0]),
        !is_ws(p.last()),
    ensures
        control_command(":ls "@ + p) == Ok::<Option<InputView>, Seq<char>>(
            Some(InputView::Ls(p)),
        ),
        control_command(":cd "@ + p) == Ok::<Option<InputView>, Seq<char>>(
            Some(InputView::Cd(p)),
        ),
{
    reveal_strlit(":ls ");
    reveal_strlit(":cd ");
    reveal_strlit(":ls");
    reveal_strlit(":cat ");
    reveal_strlit(":help");
    reveal_strlit(":commands");
    reveal_strlit(":status");
    reveal_strlit(":diff");
    reveal_strlit(":pwd");
    reveal_strlit(":stop");
    lemma_trim_unchanged(p);
    let l = ":ls "@ + p;
    let c = ":cd "@ + p;
    assert(l[0] == ':' && l[1] == 'l' && l[2] == 's' && l[3] == ' ');
    assert(c[0] == ':' && c[1] == 'c' && c[2] == 'd' && c[3] == ' ');
    assert(!is_ws(':'));
    assert(l.last() == p.last() && c.last() == p.last());
    lemma_trim_unchanged(l);
    lemma_trim_unchanged(c);
    assert(l.len() > 4 && c.len() > 4);
    assert(l != ":help"@ && l != ":commands"@ && l != ":status"@ && l != ":diff"@);
    assert(l != ":pwd"@ && l != ":stop"@ && l != ":ls"@);
    assert(c != ":help"@ && c != ":commands"@ && c != ":status"@ && c != ":diff"@);
    assert(c != ":pwd"@ && c != ":stop"@ && c != ":ls"@);
    assert(l.take(4) =~= ":ls "@);
    assert(c.take(4) =~= ":cd "@);
    assert(!starts_with(c, ":ls "@)) by {
        assert(c.take(4)[1] != ":ls "@[1]);
    }
    assert(!starts_with(c, ":cat "@)) by {
        assert(c.take(5)[2] != ":cat "@[2]);
    }
    assert(after(l, ":ls "@) =~= p);
    assert(after(c, ":cd "@) =~= p);
}

} // verus!
