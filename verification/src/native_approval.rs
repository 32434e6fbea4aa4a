//! Codex's native approval requests: the record shown to the chat user, and
//! the JSON-RPC answer that carries the user's decision back to Codex.
use crate::config::WecodeConfig;
use crate::json::{
    field_views, jarray, jget, jget_opt, json_as_array, json_as_str, json_clone, json_get,
    json_get_opt,
    json_parse, json_str_field, json_text, jstr, jv_object, jv_str, parse_json, ref_val, render_json, views, Json,
    JsonValue,
};
use crate::paths::{expand_tilde, expand_tilde_chars, join_path, join_path_chars};
use crate::sessions::{sort_texts, texts_ascending, truncated};
use crate::text::{
    chars_to_string, concat2, ends_with, join, join_chars, lit_eq, lit_then, opt_seq, opt_string,
    str_chars, strings_view, trim, trim_slice, with_lit, words_view,
};
use vstd::prelude::*;

verus! {

#[derive(Debug, Clone, Copy, PartialEq, Eq, Structural)]
pub enum NativeApprovalDecision {
    Approve,
    Deny,
}

/// A pending approval, as written for the chat channel to show.
#[derive(Debug, PartialEq)]
pub struct NativeApprovalRecord {
    pub kind: String,
    pub approval_id: String,
    pub request_method: String,
    pub jsonrpc_id: JsonValue,
    pub thread_id: Option<String>,
    pub turn_id: Option<String>,
    pub command: Option<String>,
    pub cwd: Option<String>,
    pub summary: Vec<String>,
    pub prompt: String,
    pub request_params: JsonValue,
    pub created_at_millis: u128,
    pub expires_at_millis: u128,
}

/// The user's answer to an approval.
#[derive(Debug, Clone, PartialEq, Eq)]
pub struct NativeApprovalDecisionRecord {
    pub approval_id: String,
    pub decision: NativeApprovalDecision,
    pub decided_at_millis: u128,
}

// ---------------------------------------------------------------------------
// Where approvals are kept
// ---------------------------------------------------------------------------

pub open spec fn approvals_dir(c: WecodeConfig, home: Option<Seq<char>>) -> Seq<char> {
    join_path(join_path(expand_tilde(c.openclaw.state_dir@, home), "approvals"@), "native"@)
}

pub open spec fn opt_str(o: Option<&str>) -> Option<Seq<char>> {
    match o {
        Some(s) => Some(s@),
        None => None,
    }
}

fn approvals_dir_chars(config: &WecodeConfig, home: Option<&str>) -> (r: Vec<char>)
    ensures
        r@ == approvals_dir(*config, opt_str(home)),
{
    let state = str_chars(config.openclaw.state_dir.as_str());
    let base = expand_tilde_chars(state.as_slice(), home);
    let a = str_chars("approvals");
    let n = str_chars("native");
    let d = join_path_chars(base.as_slice(), a.as_slice());
    join_path_chars(d.as_slice(), n.as_slice())
}

/// `<state dir>/approvals/native`.
pub fn native_approvals_dir(config: &WecodeConfig, home: Option<&str>) -> (r: String)
    ensures
        r@ == approvals_dir(*config, opt_str(home)),
{
    chars_to_string(approvals_dir_chars(config, home).as_slice())
}

/// `<approvals dir>/<id>.json`.
pub fn native_approval_path(config: &WecodeConfig, home: Option<&str>, approval_id: &str) -> (r:
    String)
    ensures
        r@ == join_path(approvals_dir(*config, opt_str(home)), approval_id@ + ".json"@),
{
    let d = approvals_dir_chars(config, home);
    let id = str_chars(approval_id);
    let name = with_lit(id.as_slice(), ".json");
    chars_to_string(join_path_chars(d.as_slice(), name.as_slice()).as_slice())
}

/// `<approvals dir>/<id>.decision.json`.
pub fn native_decision_path(config: &WecodeConfig, home: Option<&str>, approval_id: &str) -> (r:
    String)
    ensures
        r@ == join_path(approvals_dir(*config, opt_str(home)), approval_id@ + ".decision.json"@),
{
    let d = approvals_dir_chars(config, home);
    let id = str_chars(approval_id);
    let name = with_lit(id.as_slice(), ".decision.json");
    chars_to_string(join_path_chars(d.as_slice(), name.as_slice()).as_slice())
}

pub open spec fn supported_method(m: Seq<char>) -> bool {
    ||| m == "item/commandExecution/requestApproval"@
    ||| m == "item/fileChange/requestApproval"@
    ||| m == "item/permissions/requestApproval"@
}

/// The approval requests that wecode forwards to the chat user.
pub fn is_supported_approval_method(method: &str) -> (r: bool)
    ensures
        r == supported_method(method@),
{
    let m = str_chars(method);
    lit_eq(m.as_slice(), "item/commandExecution/requestApproval") || lit_eq(
        m.as_slice(),
        "item/fileChange/requestApproval",
    ) || lit_eq(m.as_slice(), "item/permissions/requestApproval")
}

// ---------------------------------------------------------------------------
// Reading a request
// ---------------------------------------------------------------------------

/// A string member, trimmed, when it is not blank.
pub open spec fn read_str(v: Json, key: Seq<char>) -> Option<Seq<char>> {
    match jstr(jget(v, key)) {
        Some(s) => if trim(s).len() > 0 {
            Some(trim(s))
        } else {
            None
        },
        None => None,
    }
}

pub open spec fn all_strs(items: Seq<Json>) -> bool {
    forall|i: int| 0 <= i < items.len() ==> (#[trigger] items[i]) is Str
}

pub open spec fn str_values(items: Seq<Json>) -> Seq<Seq<char>> {
    items.map_values(|x: Json| x->Str_0)
}

/// The `command` of each action that has one.
pub open spec fn action_commands(actions: Seq<Json>) -> Seq<Seq<char>>
    decreases actions.len(),
{
    if actions.len() == 0 {
        Seq::empty()
    } else {
        let rest = action_commands(actions.drop_last());
        match read_str(actions.last(), "command"@) {
            Some(c) => rest.push(c),
            None => rest,
        }
    }
}

/// The command line an approval is about: `command` as a string, or as an
/// argument list, or the commands of `commandActions` joined by `&&`.
pub open spec fn approval_command_of(params: Json) -> Option<Seq<char>> {
    match read_str(params, "command"@) {
        Some(c) => Some(c),
        None => {
            let parts = jarray(jget(params, "command"@));
            if parts is Some && all_strs(parts->0) {
                Some(join(str_values(parts->0), " "@))
            } else {
                match jarray(jget(params, "commandActions"@)) {
                    None => None,
                    Some(actions) => if action_commands(actions).len() == 0 {
                        None
                    } else {
                        Some(join(action_commands(actions), " && "@))
                    },
                }
            }
        },
    }
}

fn read_string(value: &JsonValue, key: &str) -> (r: Option<String>)
    ensures
        opt_string(r) == read_str(value@, key@),
{
    let k = str_chars(key);
    match json_str_field(Some(value), k.as_slice()) {
        Some(s) => {
            let t = trim_slice(s.as_slice());
            if t.len() > 0 {
                Some(chars_to_string(t))
            } else {
                None
            }
        },
        None => None,
    }
}

fn approval_command(params: &JsonValue) -> (r: Option<String>)
    ensures
        opt_string(r) == approval_command_of(params@),
{
    if let Some(command) = read_string(params, "command") {
        return Some(command);
    }
    let ck = str_chars("command");
    match json_as_array(json_get(params, ck.as_slice())) {
        Some(parts) => {
            let ghost pv = views(parts@);
            let mut words: Vec<Vec<char>> = Vec::new();
            let mut all = true;
            let mut i: usize = 0;
            while i < parts.len() && all
                invariant
                    i <= parts.len(),
                    pv == views(parts@),
                    all ==> words@.len() == i,
                    all ==> forall|k: int| 0 <= k < i ==> (#[trigger] pv[k]) is Str && words_view(words@)[k] == pv[k]->Str_0,
                    !all ==> !all_strs(pv),
                decreases parts.len() - i,
            {
                match json_as_str(Some(&parts[i])) {
                    Some(s) => {
                        let ghost before = words_view(words@);
                        words.push(str_chars(s.as_str()));
                        assert(words_view(words@) =~= before.push(pv[i as int]->Str_0));
                    },
                    None => {
                        assert(!(pv[i as int] is Str));
                        all = false;
                    },
                }
                i += 1;
            }
            if all {
                assert(words_view(words@) =~= str_values(pv));
                return Some(chars_to_string(join_chars(words.as_slice(), " ").as_slice()));
            }
        },
        None => {},
    }
    let ak = str_chars("commandActions");
    let actions = match json_as_array(json_get(params, ak.as_slice())) {
        Some(a) => a,
        None => return None,
    };
    let ghost av = views(actions@);
    let mut cmds: Vec<Vec<char>> = Vec::new();
    let mut j: usize = 0;
    assert(av.take(0) =~= Seq::<Json>::empty());
    while j < actions.len()
        invariant
            j <= actions.len(),
            av == views(actions@),
            words_view(cmds@) == action_commands(av.take(j as int)),
        decreases actions.len() - j,
    {
        assert(av.take(j + 1).drop_last() =~= av.take(j as int));
        assert(av.take(j + 1).last() == actions@[j as int]@);
        match read_string(&actions[j], "command") {
            Some(c) => {
                let ghost before = words_view(cmds@);
                cmds.push(str_chars(c.as_str()));
                assert(words_view(cmds@) =~= before.push(c@));
            },
            None => {},
        }
        j += 1;
    }
    assert(av.take(actions.len() as int) =~= av);
    if cmds.len() == 0 {
        None
    } else {
        Some(chars_to_string(join_chars(cmds.as_slice(), " && ").as_slice()))
    }
}

// ---------------------------------------------------------------------------
// Answering a request
// ---------------------------------------------------------------------------

pub open spec fn has_str(items: Seq<Json>, s: Seq<char>) -> bool {
    exists|i: int| 0 <= i < items.len() && items[i] == Json::Str(s)
}

/// The accepting decision the request offers: `accept`, else
/// `acceptForSession`, else `accept`.
pub open spec fn accept_decision(params: Json) -> Seq<char> {
    match jarray(jget(params, "availableDecisions"@)) {
        Some(items) => if has_str(items, "accept"@) {
            "accept"@
        } else if has_str(items, "acceptForSession"@) {
            "acceptForSession"@
        } else {
            "accept"@
        },
        None => "accept"@,
    }
}

/// The rejecting decision: the preferred one when offered, else the other
/// of `decline` and `cancel` when offered, else the preferred one.
pub open spec fn rejection_decision(params: Json, preferred: Seq<char>) -> Seq<char> {
    match jarray(jget(params, "availableDecisions"@)) {
        Some(items) => if has_str(items, preferred) {
            preferred
        } else if preferred == "decline"@ && has_str(items, "cancel"@) {
            "cancel"@
        } else if preferred == "cancel"@ && has_str(items, "decline"@) {
            "decline"@
        } else {
            preferred
        },
        None => preferred,
    }
}

pub open spec fn is_object(v: Option<Json>) -> bool {
    v matches Some(Json::Object(_))
}

/// The network and file-system permissions that the request asks for.
pub open spec fn granted_permissions(params: Json) -> Json {
    let perms = jget(params, "permissions"@);
    let network = if is_object(perms) {
        jget_opt(perms, "network"@)
    } else {
        None
    };
    let file_system = if is_object(perms) {
        jget_opt(perms, "fileSystem"@)
    } else {
        None
    };
    Json::Object(
        (if is_object(network) {
            seq![("network"@, network->0)]
        } else {
            Seq::empty()
        }) + (if is_object(file_system) {
            seq![("fileSystem"@, file_system->0)]
        } else {
            Seq::empty()
        }),
    )
}

pub open spec fn decision_json(d: Seq<char>) -> Json {
    Json::Object(seq![("decision"@, Json::Str(d))])
}

/// The JSON-RPC result that answers an approval request.
pub open spec fn approval_response(
    method: Seq<char>,
    params: Json,
    decision: NativeApprovalDecision,
) -> Json {
    if method == "item/commandExecution/requestApproval"@ {
        match decision {
            NativeApprovalDecision::Approve => decision_json(accept_decision(params)),
            NativeApprovalDecision::Deny => decision_json(rejection_decision(params, "decline"@)),
        }
    } else if method == "item/fileChange/requestApproval"@ {
        match decision {
            NativeApprovalDecision::Approve => decision_json("accept"@),
            NativeApprovalDecision::Deny => decision_json("decline"@),
        }
    } else if method == "item/permissions/requestApproval"@ {
        Json::Object(
            seq![
                (
                    "permissions"@,
                    match decision {
                        NativeApprovalDecision::Approve => granted_permissions(params),
                        NativeApprovalDecision::Deny => Json::Object(Seq::empty()),
                    },
                ),
                ("scope"@, Json::Str("turn"@)),
            ],
        )
    } else {
        Json::Object(
            seq![
                ("decision"@, Json::Str("decline"@)),
                ("reason"@, Json::Str("unsupported Codex approval method"@)),
            ],
        )
    }
}

fn has_str_exec(items: &Vec<JsonValue>, s: &str) -> (r: bool)
    ensures
        r == has_str(views(items@), s@),
{
    let mut i: usize = 0;
    while i < items.len()
        invariant
            i <= items.len(),
            forall|k: int| 0 <= k < i ==> views(items@)[k] != Json::Str(s@),
        decreases items.len() - i,
    {
        match json_as_str(Some(&items[i])) {
            Some(t) => {
                let tc = str_chars(t.as_str());
                if lit_eq(tc.as_slice(), s) {
                    assert(views(items@)[i as int] == Json::Str(s@));
                    return true;
                }
            },
            None => {},
        }
        i += 1;
    }
    false
}

fn available_decisions(params: &JsonValue) -> (r: Option<&Vec<JsonValue>>)
    ensures
        match r {
            Some(items) => jarray(jget(params@, "availableDecisions"@)) == Some(views(items@)),
            None => jarray(jget(params@, "availableDecisions"@)) is None,
        },
{
    let k = str_chars("availableDecisions");
    json_as_array(json_get(params, k.as_slice()))
}

fn command_accept_decision(params: &JsonValue) -> (r: &'static str)
    ensures
        r@ == accept_decision(params@),
{
    match available_decisions(params) {
        Some(items) => {
            if has_str_exec(items, "accept") {
                "accept"
            } else if has_str_exec(items, "acceptForSession") {
                "acceptForSession"
            } else {
                "accept"
            }
        },
        None => "accept",
    }
}

fn command_rejection_decision(params: &JsonValue, preferred: &'static str) -> (r: &'static str)
    ensures
        r@ == rejection_decision(params@, preferred@),
{
    let pc = str_chars(preferred);
    match available_decisions(params) {
        Some(items) => {
            if has_str_exec(items, preferred) {
                preferred
            } else if lit_eq(pc.as_slice(), "decline") && has_str_exec(items, "cancel") {
                "cancel"
            } else if lit_eq(pc.as_slice(), "cancel") && has_str_exec(items, "decline") {
                "decline"
            } else {
                preferred
            }
        },
        None => preferred,
    }
}

fn is_object_exec(v: Option<&JsonValue>) -> (r: bool)
    ensures
        r == is_object(ref_val(v)),
{
    match v {
        Some(JsonValue::Object(_)) => true,
        _ => false,
    }
}

/// The permissions to grant: the requested `network` and `fileSystem`
/// entries, when they are objects.
pub fn requested_permissions(request_params: &JsonValue) -> (r: JsonValue)
    ensures
        r@ == granted_permissions(request_params@),
{
    let pk = str_chars("permissions");
    let perms = json_get(request_params, pk.as_slice());
    let mut granted: Vec<(String, JsonValue)> = Vec::new();
    let perms_obj = is_object_exec(perms);
    let nk = str_chars("network");
    let network = if perms_obj {
        json_get_opt(perms, nk.as_slice())
    } else {
        None
    };
    if is_object_exec(network) {
        match network {
            Some(n) => granted.push(("network".to_owned(), json_clone(n))),
            None => {},
        }
    }
    let ghost after_network = field_views(granted@);
    let fk = str_chars("fileSystem");
    let file_system = if perms_obj {
        json_get_opt(perms, fk.as_slice())
    } else {
        None
    };
    if is_object_exec(file_system) {
        match file_system {
            Some(f) => granted.push(("fileSystem".to_owned(), json_clone(f))),
            None => {},
        }
    }
    let r = jv_object(granted);
    proof {
        let expected = granted_permissions(request_params@);
        assert(field_views(granted@) =~= match expected {
            Json::Object(ms) => ms,
            _ => Seq::empty(),
        });
    }
    r
}

fn decision_value(d: &str) -> (v: JsonValue)
    ensures
        v@ == decision_json(d@),
{
    let mut fields: Vec<(String, JsonValue)> = Vec::new();
    fields.push(("decision".to_owned(), jv_str(d.to_owned())));
    let v = jv_object(fields);
    assert(field_views(fields@) =~= seq![("decision"@, Json::Str(d@))]);
    v
}

/// The answer to send back to Codex for the user's decision.
pub fn approval_response_for_decision(
    method: &str,
    request_params: &JsonValue,
    decision: NativeApprovalDecision,
) -> (r: JsonValue)
    ensures
        r@ == approval_response(method@, request_params@, decision),
{
    let m = str_chars(method);
    if lit_eq(m.as_slice(), "item/commandExecution/requestApproval") {
        match decision {
            NativeApprovalDecision::Approve => decision_value(command_accept_decision(request_params)),
            NativeApprovalDecision::Deny => decision_value(
                command_rejection_decision(request_params, "decline"),
            ),
        }
    } else if lit_eq(m.as_slice(), "item/fileChange/requestApproval") {
        match decision {
            NativeApprovalDecision::Approve => decision_value("accept"),
            NativeApprovalDecision::Deny => decision_value("decline"),
        }
    } else if lit_eq(m.as_slice(), "item/permissions/requestApproval") {
        let permissions = match decision {
            NativeApprovalDecision::Approve => requested_permissions(request_params),
            NativeApprovalDecision::Deny => {
                let empty: Vec<(String, JsonValue)> = Vec::new();
                let e = jv_object(empty);
                assert(field_views(empty@) =~= Seq::<(Seq<char>, Json)>::empty());
                e
            },
        };
        let ghost pv = permissions@;
        let mut fields: Vec<(String, JsonValue)> = Vec::new();
        fields.push(("permissions".to_owned(), permissions));
        fields.push(("scope".to_owned(), jv_str("turn".to_owned())));
        let v = jv_object(fields);
        assert(field_views(fields@) =~= seq![("permissions"@, pv), ("scope"@, Json::Str("turn"@))]);
        v
    } else {
        let mut fields: Vec<(String, JsonValue)> = Vec::new();
        fields.push(("decision".to_owned(), jv_str("decline".to_owned())));
        fields.push(("reason".to_owned(), jv_str("unsupported Codex approval method".to_owned())));
        let v = jv_object(fields);
        assert(field_views(fields@) =~= seq![
            ("decision"@, Json::Str("decline"@)),
            ("reason"@, Json::Str("unsupported Codex approval method"@)),
        ]);
        v
    }
}

// ---------------------------------------------------------------------------
// What the user is shown
// ---------------------------------------------------------------------------

/// The JSON-RPC response that carries the user's `decision` on `record`
/// back to Codex, under the id of Codex's request.
pub fn approval_reply(record: &NativeApprovalRecord, decision: NativeApprovalDecision) -> (r: JsonValue)
    ensures
        r@ == Json::Object(
            seq![
                ("jsonrpc"@, Json::Str("2.0"@)),
                ("id"@, record.jsonrpc_id@),
                ("result"@, approval_response(record.request_method@, record.request_params@, decision)),
            ],
        ),
{
    let result = approval_response_for_decision(
        record.request_method.as_str(),
        &record.request_params,
        decision,
    );
    let mut f: Vec<(String, JsonValue)> = Vec::new();
    f.push(("jsonrpc".to_owned(), jv_str("2.0".to_owned())));
    f.push(("id".to_owned(), json_clone(&record.jsonrpc_id)));
    f.push(("result".to_owned(), result));
    let v = jv_object(f);
    assert(field_views(f@) =~= seq![
        ("jsonrpc"@, Json::Str("2.0"@)),
        ("id"@, record.jsonrpc_id@),
        ("result"@, approval_response(record.request_method@, record.request_params@, decision)),
    ]);
    v
}

/// The first `max` characters of `value`, with `...` when it was longer.
pub fn compact_text(value: &str, max_chars: usize) -> (r: String)
    ensures
        r@ == truncated(value@, max_chars as nat),
{
    let c = str_chars(value);
    if c.len() > max_chars {
        let head = &c.as_slice()[0..max_chars];
        assert(head@ =~= c@.take(max_chars as int));
        chars_to_string(with_lit(head, "...").as_slice())
    } else {
        chars_to_string(c.as_slice())
    }
}

pub open spec fn labeled(label: Seq<char>, text: Seq<char>, max: nat) -> Seq<char> {
    label + truncated(text, max)
}

pub open spec fn file_path_of(params: Json) -> Option<Seq<char>> {
    match read_str(params, "path"@) {
        Some(p) => Some(p),
        None => read_str(params, "filePath"@),
    }
}

pub open spec fn opt_line(o: Option<Seq<char>>, label: Seq<char>, max: nat) -> Seq<Seq<char>> {
    match o {
        Some(t) => seq![labeled(label, t, max)],
        None => Seq::empty(),
    }
}

/// The lines that describe a request: its command, directory, requested
/// permissions or file.
pub open spec fn summary_lines(method: Seq<char>, params: Json) -> Seq<Seq<char>> {
    let base = opt_line(approval_command_of(params), "Command: "@, 500) + opt_line(
        read_str(params, "cwd"@),
        "CWD: "@,
        240,
    );
    let perms = granted_permissions(params);
    let with_perms = if method == "item/permissions/requestApproval"@ && perms != Json::Object(
        Seq::empty(),
    ) {
        base.push(labeled("Permissions: "@, json_text(perms), 800))
    } else {
        base
    };
    let with_file = if method == "item/fileChange/requestApproval"@ {
        match file_path_of(params) {
            Some(p) => with_perms.push(labeled("File: "@, p, 240)),
            None => with_perms.push("File change requested."@),
        }
    } else {
        with_perms
    };
    if with_file.len() == 0 {
        seq!["Codex requested native approval."@]
    } else {
        with_file
    }
}

fn push_line(lines: &mut Vec<String>, line: String)
    ensures
        strings_view(final(lines)@) == strings_view(old(lines)@).push(line@),
{
    let ghost before = strings_view(lines@);
    lines.push(line);
    assert(strings_view(lines@) =~= before.push(line@));
}

fn labeled_line(label: &str, text: &str, max: usize) -> (r: String)
    ensures
        r@ == labeled(label@, text@, max as nat),
{
    let t = compact_text(text, max);
    let tc = str_chars(t.as_str());
    chars_to_string(lit_then(label, tc.as_slice()).as_slice())
}

fn approval_summary(method: &str, request_params: &JsonValue) -> (r: Vec<String>)
    ensures
        strings_view(r@) == summary_lines(method@, request_params@),
{
    let mut lines: Vec<String> = Vec::new();
    let command = approval_command(request_params);
    match &command {
        Some(c) => push_line(&mut lines, labeled_line("Command: ", c.as_str(), 500)),
        None => {},
    }
    let cwd = read_string(request_params, "cwd");
    match &cwd {
        Some(c) => push_line(&mut lines, labeled_line("CWD: ", c.as_str(), 240)),
        None => {},
    }
    assert(strings_view(lines@) =~= opt_line(approval_command_of(request_params@), "Command: "@, 500)
        + opt_line(read_str(request_params@, "cwd"@), "CWD: "@, 240));
    let m = str_chars(method);
    if lit_eq(m.as_slice(), "item/permissions/requestApproval") {
        let permissions = requested_permissions(request_params);
        let nonempty = match &permissions {
            JsonValue::Object(fields) => fields.len() > 0,
            _ => true,
        };
        proof {
            let got = match permissions@ {
                Json::Object(ms) => ms,
                _ => Seq::empty(),
            };
            if !nonempty {
                assert(got =~= Seq::<(Seq<char>, Json)>::empty());
            } else {
                assert(got.len() > 0);
                assert(permissions@ != Json::Object(Seq::empty()));
            }
        }
        if nonempty {
            let text = render_json(&permissions);
            push_line(&mut lines, labeled_line("Permissions: ", text.as_str(), 800));
        }
    }
    if lit_eq(m.as_slice(), "item/fileChange/requestApproval") {
        let path = match read_string(request_params, "path") {
            Some(p) => Some(p),
            None => read_string(request_params, "filePath"),
        };
        match path {
            Some(p) => push_line(&mut lines, labeled_line("File: ", p.as_str(), 240)),
            None => push_line(&mut lines, "File change requested.".to_owned()),
        }
    }
    if lines.len() == 0 {
        push_line(&mut lines, "Codex requested native approval.".to_owned());
    }
    lines
}

pub open spec fn prompt_title(method: Seq<char>) -> Seq<char> {
    if method == "item/commandExecution/requestApproval"@ {
        "Codex requests permission to run a command."@
    } else if method == "item/fileChange/requestApproval"@ {
        "Codex requests permission to change files."@
    } else if method == "item/permissions/requestApproval"@ {
        "Codex requests additional permissions."@
    } else {
        "Codex requests permission."@
    }
}

/// `lines` followed by each item not already among them.
pub open spec fn add_unique(lines: Seq<Seq<char>>, items: Seq<Seq<char>>) -> Seq<Seq<char>>
    decreases items.len(),
{
    if items.len() == 0 {
        lines
    } else {
        let l = add_unique(lines, items.drop_last());
        if l.contains(items.last()) {
            l
        } else {
            l.push(items.last())
        }
    }
}

/// The message that asks the chat user to approve or deny.
pub open spec fn approval_prompt(
    id: Seq<char>,
    method: Seq<char>,
    command: Option<Seq<char>>,
    cwd: Option<Seq<char>>,
    summary: Seq<Seq<char>>,
) -> Seq<char> {
    let head = seq![prompt_title(method), "Approval: "@ + id] + opt_line(command, "Command: "@, 500)
        + opt_line(cwd, "CWD: "@, 240);
    join(
        add_unique(head, summary).push("Approve: yes, :yes, or :approve "@ + id).push(
            "Deny: no, :no, or :deny "@ + id,
        ),
        "\n"@,
    )
}

fn contains_line(lines: &Vec<String>, item: &String) -> (r: bool)
    ensures
        r == strings_view(lines@).contains(item@),
{
    let mut i: usize = 0;
    while i < lines.len()
        invariant
            i <= lines.len(),
            forall|k: int| 0 <= k < i ==> strings_view(lines@)[k] != item@,
        decreases lines.len() - i,
    {
        if lines[i] == *item {
            assert(strings_view(lines@)[i as int] == item@);
            return true;
        }
        i += 1;
    }
    false
}

fn format_native_approval_prompt(
    approval_id: &str,
    method: &str,
    command: Option<&str>,
    cwd: Option<&str>,
    summary: &[String],
) -> (r: String)
    ensures
        r@ == approval_prompt(
            approval_id@,
            method@,
            opt_str(command),
            opt_str(cwd),
            strings_view(summary@),
        ),
{
    let m = str_chars(method);
    let title = if lit_eq(m.as_slice(), "item/commandExecution/requestApproval") {
        "Codex requests permission to run a command."
    } else if lit_eq(m.as_slice(), "item/fileChange/requestApproval") {
        "Codex requests permission to change files."
    } else if lit_eq(m.as_slice(), "item/permissions/requestApproval") {
        "Codex requests additional permissions."
    } else {
        "Codex requests permission."
    };
    let id = str_chars(approval_id);
    let mut lines: Vec<String> = Vec::new();
    push_line(&mut lines, title.to_owned());
    push_line(&mut lines, chars_to_string(lit_then("Approval: ", id.as_slice()).as_slice()));
    match command {
        Some(c) => push_line(&mut lines, labeled_line("Command: ", c, 500)),
        None => {},
    }
    match cwd {
        Some(c) => push_line(&mut lines, labeled_line("CWD: ", c, 240)),
        None => {},
    }
    let ghost head = strings_view(lines@);
    assert(head =~= seq![prompt_title(method@), "Approval: "@ + approval_id@] + opt_line(
        opt_str(command),
        "Command: "@,
        500,
    ) + opt_line(opt_str(cwd), "CWD: "@, 240));
    let ghost sv = strings_view(summary@);
    let mut i: usize = 0;
    assert(sv.take(0) =~= Seq::<Seq<char>>::empty());
    while i < summary.len()
        invariant
            i <= summary.len(),
            sv == strings_view(summary@),
            strings_view(lines@) == add_unique(head, sv.take(i as int)),
        decreases summary.len() - i,
    {
        assert(sv.take(i + 1).drop_last() =~= sv.take(i as int));
        assert(sv.take(i + 1).last() == summary@[i as int]@);
        if !contains_line(&lines, &summary[i]) {
            push_line(&mut lines, summary[i].clone());
        }
        i += 1;
    }
    assert(sv.take(summary.len() as int) =~= sv);
    push_line(
        &mut lines,
        chars_to_string(lit_then("Approve: yes, :yes, or :approve ", id.as_slice()).as_slice()),
    );
    push_line(&mut lines, chars_to_string(lit_then("Deny: no, :no, or :deny ", id.as_slice()).as_slice()));
    let mut words: Vec<Vec<char>> = Vec::new();
    let mut k: usize = 0;
    while k < lines.len()
        invariant
            k <= lines.len(),
            words_view(words@) == strings_view(lines@).take(k as int),
        decreases lines.len() - k,
    {
        let ghost before = words_view(words@);
        words.push(str_chars(lines[k].as_str()));
        assert(words_view(words@) =~= before.push(strings_view(lines@)[k as int]));
        assert(strings_view(lines@).take(k + 1) =~= strings_view(lines@).take(k as int).push(
            strings_view(lines@)[k as int],
        ));
        k += 1;
    }
    assert(strings_view(lines@).take(lines.len() as int) =~= strings_view(lines@));
    chars_to_string(join_chars(words.as_slice(), "\n").as_slice())
}

// ---------------------------------------------------------------------------
// Timing
// ---------------------------------------------------------------------------

/// How long an approval waits, in milliseconds: the configured timeout (at
/// least a second), kept a second under OpenClaw's no-output watchdog.
pub open spec fn approval_timeout_ms(c: WecodeConfig) -> int {
    let secs = if c.codex.remote.approval_timeout_seconds < 1 {
        1
    } else {
        c.codex.remote.approval_timeout_seconds as int
    };
    let requested = secs * 1000;
    let watchdog = c.openclaw.cli_no_output_timeout_ms as int;
    if watchdog > 1000 && watchdog - 1000 < requested {
        watchdog - 1000
    } else {
        requested
    }
}

pub fn effective_approval_timeout_ms(config: &WecodeConfig) -> (r: u128)
    ensures
        r == approval_timeout_ms(*config),
{
    let secs: u64 = if config.codex.remote.approval_timeout_seconds < 1 {
        1
    } else {
        config.codex.remote.approval_timeout_seconds
    };
    let requested: u128 = secs as u128 * 1000;
    let watchdog = config.openclaw.cli_no_output_timeout_ms;
    if watchdog > 1000 && ((watchdog - 1000) as u128) < requested {
        (watchdog - 1000) as u128
    } else {
        requested
    }
}

/// How often a waiting approval reports progress: a tenth of the timeout,
/// between one second and one minute.
pub open spec fn progress_interval_ms(c: WecodeConfig) -> int {
    let t = approval_timeout_ms(c) / 10;
    if t < 1000 {
        1000
    } else if t > 60000 {
        60000
    } else {
        t
    }
}

pub fn approval_wait_progress_interval_ms(config: &WecodeConfig) -> (r: u64)
    ensures
        r == progress_interval_ms(*config),
{
    let t = effective_approval_timeout_ms(config) / 10;
    if t < 1000 {
        1000
    } else if t > 60000 {
        60000
    } else {
        t as u64
    }
}

// ---------------------------------------------------------------------------
// The record of a new request
// ---------------------------------------------------------------------------

pub open spec fn thread_of(params: Json) -> Option<Seq<char>> {
    match read_str(params, "threadId"@) {
        Some(t) => Some(t),
        None => read_str(params, "conversationId"@),
    }
}

pub open spec fn params_of(message: Json) -> Json {
    match jget(message, "params"@) {
        Some(p) => p,
        None => Json::Null,
    }
}

/// The record for an approval request `message` that arrived at `now`
/// (milliseconds) under the id `approval_id`; a request without a method or
/// an id is refused.
pub fn create_native_approval_record(
    config: &WecodeConfig,
    message: &JsonValue,
    approval_id: String,
    now: u128,
) -> (r: Result<NativeApprovalRecord, String>)
    ensures
        jstr(jget(message@, "method"@)) is None ==> (r matches Err(e) && e@
            == "Codex approval request did not include method"@),
        jstr(jget(message@, "method"@)) is Some && jget(message@, "id"@) is None ==> (
        r matches Err(e) && e@ == "Codex approval request did not include id"@),
        r is Ok <==> jstr(jget(message@, "method"@)) is Some && jget(message@, "id"@) is Some,
        r matches Ok(rec) ==> {
            let method = jstr(jget(message@, "method"@))->0;
            let params = params_of(message@);
            &&& rec.kind@ == "codex-native"@
            &&& rec.approval_id@ == approval_id@
            &&& rec.request_method@ == method
            &&& Some(rec.jsonrpc_id@) == jget(message@, "id"@)
            &&& rec.request_params@ == params
            &&& opt_string(rec.thread_id) == thread_of(params)
            &&& opt_string(rec.turn_id) == read_str(params, "turnId"@)
            &&& opt_string(rec.command) == approval_command_of(params)
            &&& opt_string(rec.cwd) == read_str(params, "cwd"@)
            &&& strings_view(rec.summary@) == summary_lines(method, params)
            &&& rec.prompt@ == approval_prompt(
                approval_id@,
                method,
                approval_command_of(params),
                read_str(params, "cwd"@),
                summary_lines(method, params),
            )
            &&& rec.created_at_millis == now
            &&& rec.expires_at_millis == (if now + approval_timeout_ms(*config) > u128::MAX {
                u128::MAX as int
            } else {
                now + approval_timeout_ms(*config)
            })
        },
{
    let mk = str_chars("method");
    let request_method = match json_str_field(Some(message), mk.as_slice()) {
        Some(m) => chars_to_string(m.as_slice()),
        None => return Err("Codex approval request did not include method".to_owned()),
    };
    let ik = str_chars("id");
    let jsonrpc_id = match json_get(message, ik.as_slice()) {
        Some(id) => json_clone(id),
        None => return Err("Codex approval request did not include id".to_owned()),
    };
    let pk = str_chars("params");
    let request_params = match json_get(message, pk.as_slice()) {
        Some(p) => json_clone(p),
        None => JsonValue::Null,
    };
    let timeout_ms = effective_approval_timeout_ms(config);
    let command = approval_command(&request_params);
    let cwd = read_string(&request_params, "cwd");
    let thread_id = match read_string(&request_params, "threadId") {
        Some(t) => Some(t),
        None => read_string(&request_params, "conversationId"),
    };
    let turn_id = read_string(&request_params, "turnId");
    let summary = approval_summary(request_method.as_str(), &request_params);
    let command_ref: Option<&str> = match &command {
        Some(c) => Some(c.as_str()),
        None => None,
    };
    let cwd_ref: Option<&str> = match &cwd {
        Some(c) => Some(c.as_str()),
        None => None,
    };
    let prompt = format_native_approval_prompt(
        approval_id.as_str(),
        request_method.as_str(),
        command_ref,
        cwd_ref,
        summary.as_slice(),
    );
    let expires = now.saturating_add(timeout_ms);
    Ok(
        NativeApprovalRecord {
            kind: "codex-native".to_owned(),
            approval_id,
            request_method,
            jsonrpc_id,
            thread_id,
            turn_id,
            command,
            cwd,
            summary,
            prompt,
            request_params,
            created_at_millis: now,
            expires_at_millis: expires,
        },
    )
}

// ---------------------------------------------------------------------------
// What the chat shows while Codex waits
// ---------------------------------------------------------------------------

pub open spec fn chat_title(method: Seq<char>) -> Seq<char> {
    if method == "item/commandExecution/requestApproval"@ {
        "Codex 需要执行命令，等待你的确认。"@
    } else if method == "item/fileChange/requestApproval"@ {
        "Codex 需要修改文件，等待你的确认。"@
    } else if method == "item/permissions/requestApproval"@ {
        "Codex 需要额外权限，等待你的确认。"@
    } else {
        "Codex 需要权限，等待你的确认。"@
    }
}

pub open spec fn code_line(label: Seq<char>, o: Option<Seq<char>>, max: nat) -> Seq<Seq<char>> {
    match o {
        Some(t) => seq![label + "`"@ + truncated(t, max) + "`"@],
        None => Seq::empty(),
    }
}

/// The Markdown message that asks the chat user to answer an approval.
pub open spec fn approval_chat_text(
    id: Seq<char>,
    method: Seq<char>,
    command: Option<Seq<char>>,
    cwd: Option<Seq<char>>,
) -> Seq<char> {
    join(
        seq!["# 权限审批"@, ""@, chat_title(method), ""@, "**审批 ID**: `"@ + id + "`"@]
            + code_line("**执行命令**: "@, command, 500) + code_line("**目录**: "@, cwd, 240) + seq![
            ""@,
            "回复 `yes` 批准，回复 `no` 拒绝"@,
        ],
        "\n"@,
    )
}

fn code_line_exec(lines: &mut Vec<String>, label: &str, o: &Option<String>, max: usize)
    ensures
        strings_view(final(lines)@) == strings_view(old(lines)@) + code_line(label@, opt_string(*o), max as nat),
{
    match o {
        Some(t) => {
            let c = compact_text(t.as_str(), max);
            let cc = str_chars(c.as_str());
            let line = with_lit(concat2(with_lit(str_chars(label).as_slice(), "`").as_slice(), cc.as_slice()).as_slice(), "`");
            let ghost before = strings_view(lines@);
            push_line(lines, chars_to_string(line.as_slice()));
            assert(strings_view(lines@) =~= before + code_line(label@, opt_string(*o), max as nat));
        },
        None => {
            assert(strings_view(lines@) =~= strings_view(lines@) + Seq::<Seq<char>>::empty());
        },
    }
}

/// The message that shows the chat user a pending approval.
pub fn approval_chat_message(record: &NativeApprovalRecord) -> (r: String)
    ensures
        r@ == approval_chat_text(
            record.approval_id@,
            record.request_method@,
            opt_string(record.command),
            opt_string(record.cwd),
        ),
{
    let m = str_chars(record.request_method.as_str());
    let title = if lit_eq(m.as_slice(), "item/commandExecution/requestApproval") {
        "Codex 需要执行命令，等待你的确认。"
    } else if lit_eq(m.as_slice(), "item/fileChange/requestApproval") {
        "Codex 需要修改文件，等待你的确认。"
    } else if lit_eq(m.as_slice(), "item/permissions/requestApproval") {
        "Codex 需要额外权限，等待你的确认。"
    } else {
        "Codex 需要权限，等待你的确认。"
    };
    let mut lines: Vec<String> = Vec::new();
    push_line(&mut lines, "# 权限审批".to_owned());
    push_line(&mut lines, "".to_owned());
    push_line(&mut lines, title.to_owned());
    push_line(&mut lines, "".to_owned());
    let id = str_chars(record.approval_id.as_str());
    push_line(&mut lines, chars_to_string(with_lit(lit_then("**审批 ID**: `", id.as_slice()).as_slice(), "`").as_slice()));
    let ghost head = strings_view(lines@);
    code_line_exec(&mut lines, "**执行命令**: ", &record.command, 500);
    let ghost l1 = strings_view(lines@);
    code_line_exec(&mut lines, "**目录**: ", &record.cwd, 240);
    let ghost l2 = strings_view(lines@);
    push_line(&mut lines, "".to_owned());
    push_line(&mut lines, "回复 `yes` 批准，回复 `no` 拒绝".to_owned());
    assert(strings_view(lines@) =~= head + code_line("**执行命令**: "@, opt_string(record.command), 500)
        + code_line("**目录**: "@, opt_string(record.cwd), 240) + seq![""@, "回复 `yes` 批准，回复 `no` 拒绝"@]);
    assert(head =~= seq![
        "# 权限审批"@,
        ""@,
        chat_title(record.request_method@),
        ""@,
        "**审批 ID**: `"@ + record.approval_id@ + "`"@,
    ]);
    let mut words: Vec<Vec<char>> = Vec::new();
    let mut k: usize = 0;
    while k < lines.len()
        invariant
            k <= lines.len(),
            words_view(words@) == strings_view(lines@).take(k as int),
        decreases lines.len() - k,
    {
        let ghost before = words_view(words@);
        words.push(str_chars(lines[k].as_str()));
        assert(words_view(words@) =~= before.push(strings_view(lines@)[k as int]));
        assert(strings_view(lines@).take(k + 1) =~= strings_view(lines@).take(k as int).push(
            strings_view(lines@)[k as int],
        ));
        k += 1;
    }
    assert(strings_view(lines@).take(lines.len() as int) =~= strings_view(lines@));
    chars_to_string(join_chars(words.as_slice(), "\n").as_slice())
}

/// The reply to input that is not an answer while an approval waits.
pub fn awaiting_approval_message() -> (r: &'static str)
    ensures
        r@ == "等待权限审批：请输入 `yes` or `no`"@,
{
    "等待权限审批：请输入 `yes` or `no`"
}

// ---------------------------------------------------------------------------
// Pending approvals on disk
// ---------------------------------------------------------------------------

/// The approval id that a file of the approvals directory holds: the stem of
/// `<id>.json`, never a `.decision.json` answer.
pub open spec fn record_file_id(name: Seq<char>) -> Option<Seq<char>> {
    if name.len() > 5 && ends_with(name, ".json"@) && !ends_with(name, ".decision.json"@) {
        Some(name.take(name.len() - 5))
    } else {
        None
    }
}

/// The `expires_at_millis` that a record's text holds, when it is JSON with
/// that member as a non-negative integer.
pub open spec fn record_expiry(text: Seq<char>) -> Option<u64> {
    match json_parse(text) {
        Some(v) => match jget(v, "expires_at_millis"@) {
            Some(Json::Number(e)) => Some(e),
            _ => None,
        },
        None => None,
    }
}

/// A record expired at `now` when its text (if it could be read) names an
/// expiry at or before `now`.
pub open spec fn record_expired(text: Option<Seq<char>>, now: u128) -> bool {
    match text {
        Some(t) => match record_expiry(t) {
            Some(e) => e <= now,
            None => false,
        },
        None => false,
    }
}

/// A directory entry: its file name, whether it is a regular file, and its
/// text when it could be read.
pub open spec fn entry_view(e: (String, bool, Option<String>)) -> (Seq<char>, bool, Option<Seq<char>>) {
    (e.0@, e.1, opt_string(e.2))
}

pub open spec fn entry_pending_id(e: (Seq<char>, bool, Option<Seq<char>>), now: u128) -> Option<Seq<char>> {
    if e.1 && !record_expired(e.2, now) {
        record_file_id(e.0)
    } else {
        None
    }
}

/// The ids of the approvals still waiting, in directory order.
pub open spec fn pending_ids(entries: Seq<(Seq<char>, bool, Option<Seq<char>>)>, now: u128) -> Seq<Seq<char>>
    decreases entries.len(),
{
    if entries.len() == 0 {
        Seq::empty()
    } else {
        let prev = pending_ids(entries.drop_last(), now);
        match entry_pending_id(entries.last(), now) {
            Some(id) => prev.push(id),
            None => prev,
        }
    }
}

fn expiry_of(text: &str) -> (r: Option<u64>)
    ensures
        r == record_expiry(text@),
{
    match parse_json(text) {
        Some(v) => {
            let k = str_chars("expires_at_millis");
            match json_get(&v, k.as_slice()) {
                Some(JsonValue::Number(e)) => Some(*e),
                _ => None,
            }
        },
        None => None,
    }
}

fn pending_id_of(entry: &(String, bool, Option<String>), now: u128) -> (r: Option<String>)
    ensures
        opt_string(r) == entry_pending_id(entry_view(*entry), now),
{
    if !entry.1 {
        return None;
    }
    let expired = match &entry.2 {
        Some(t) => match expiry_of(t.as_str()) {
            Some(e) => (e as u128) <= now,
            None => false,
        },
        None => false,
    };
    if expired {
        return None;
    }
    let name = str_chars(entry.0.as_str());
    let ext = str_chars(".json");
    let dec = str_chars(".decision.json");
    if name.len() > 5 && crate::text::ends_with_slice(name.as_slice(), ext.as_slice())
        && !crate::text::ends_with_slice(name.as_slice(), dec.as_slice()) {
        let stem = &name.as_slice()[0..name.len() - 5];
        assert(stem@ =~= name@.take(name@.len() - 5));
        Some(chars_to_string(stem))
    } else {
        None
    }
}

/// No two directory entries have the same name.
pub open spec fn names_distinct(entries: Seq<(Seq<char>, bool, Option<Seq<char>>)>) -> bool {
    forall|i: int, j: int| 0 <= i < j < entries.len() ==> (#[trigger] entries[i]).0 != (#[trigger] entries[j]).0
}

proof fn lemma_pending_ids_distinct(entries: Seq<(Seq<char>, bool, Option<Seq<char>>)>, now: u128)
    requires
        names_distinct(entries),
    ensures
        pending_ids(entries, now).no_duplicates(),
    decreases entries.len(),
{
    if entries.len() > 0 {
        let rest = entries.drop_last();
        assert forall|i: int, j: int| 0 <= i < j < rest.len() implies (#[trigger] rest[i]).0 != (#[trigger] rest[j]).0 by {
            assert(rest[i] == entries[i] && rest[j] == entries[j]);
        }
        lemma_pending_ids_distinct(rest, now);
        let prev = pending_ids(rest, now);
        let e = entries.last();
        match entry_pending_id(e, now) {
            Some(id) => {
                reveal_strlit(".json");
                let name = e.0;
                assert(name.skip(name.len() - 5) == ".json"@);
                assert(name.take(name.len() - 5) + ".json"@ =~= name);
                assert forall|k: int| 0 <= k < prev.len() implies prev[k] != id by {
                    if prev[k] == id {
                        law_pending_ids_are_unexpired_records(rest, now, k);
                        let i = choose|i: int|
                            0 <= i < rest.len() && (#[trigger] rest[i]).1 && !record_expired(rest[i].2, now)
                                && rest[i].0 == pending_ids(rest, now)[k] + ".json"@ && !ends_with(
                                rest[i].0,
                                ".decision.json"@,
                            );
                        assert(rest[i] == entries[i]);
                        assert(entries[i].0 == entries[entries.len() - 1].0);
                    }
                }
                let q = prev.push(id);
                assert(pending_ids(entries, now) == q);
                assert forall|a: int, b: int| 0 <= a < q.len() && 0 <= b < q.len() && a != b implies q[a] != q[b] by {
                    if a < prev.len() && b < prev.len() {
                    } else if a == prev.len() {
                        assert(q[b] == prev[b]);
                    } else {
                        assert(q[a] == prev[a]);
                    }
                }
            },
            None => {},
        }
    }
}

/// The ids of the approvals still waiting, sorted: the `<id>.json` regular
/// files of the approvals directory whose record has not expired at `now`.
pub fn pending_native_approval_ids(entries: &[(String, bool, Option<String>)], now: u128) -> (r: Vec<
    String,
>)
    ensures
        strings_view(r@).to_multiset() == pending_ids(entries@.map_values(|e| entry_view(e)), now).to_multiset(),
        texts_ascending(strings_view(r@)),
        names_distinct(entries@.map_values(|e| entry_view(e))) ==> strings_view(r@).no_duplicates(),
{
    let ghost ev = entries@.map_values(|e: (String, bool, Option<String>)| entry_view(e));
    let mut ids: Vec<String> = Vec::new();
    let mut i: usize = 0;
    assert(ev.take(0) =~= Seq::<(Seq<char>, bool, Option<Seq<char>>)>::empty());
    assert(strings_view(ids@) =~= pending_ids(ev.take(0), now));
    while i < entries.len()
        invariant
            i <= entries.len(),
            ev == entries@.map_values(|e: (String, bool, Option<String>)| entry_view(e)),
            strings_view(ids@) == pending_ids(ev.take(i as int), now),
        decreases entries.len() - i,
    {
        assert(ev.take(i + 1).drop_last() =~= ev.take(i as int));
        assert(ev.take(i + 1).last() == entry_view(entries@[i as int]));
        match pending_id_of(&entries[i], now) {
            Some(x) => {
                let ghost before = strings_view(ids@);
                ids.push(x);
                assert(strings_view(ids@) =~= before.push(x@));
            },
            None => {},
        }
        i += 1;
    }
    assert(ev.take(entries.len() as int) =~= ev);
    let r = sort_texts(ids);
    proof {
        if names_distinct(ev) {
            lemma_pending_ids_distinct(ev, now);
            pending_ids(ev, now).lemma_multiset_has_no_duplicates();
            strings_view(r@).lemma_multiset_has_no_duplicates_conv();
        }
    }
    r
}

/// What to do while waiting for the user's answer to an approval.
pub enum ApprovalWait {
    /// The answer arrived.
    Decided(NativeApprovalDecision),
    /// The answer file could not be read as an answer.
    Failed(String),
    /// No answer came in time: the request is denied.
    TimedOut,
    /// Tell the chat that the approval still waits, then keep waiting.
    ReportProgress,
    /// Keep waiting.
    Sleep,
}

pub enum WaitView {
    Decided(NativeApprovalDecision),
    Failed(Seq<char>),
    TimedOut,
    ReportProgress,
    Sleep,
}

impl View for ApprovalWait {
    type V = WaitView;

    open spec fn view(&self) -> WaitView {
        match self {
            ApprovalWait::Decided(d) => WaitView::Decided(*d),
            ApprovalWait::Failed(e) => WaitView::Failed(e@),
            ApprovalWait::TimedOut => WaitView::TimedOut,
            ApprovalWait::ReportProgress => WaitView::ReportProgress,
            ApprovalWait::Sleep => WaitView::Sleep,
        }
    }
}

pub open spec fn answer_view(answer: Option<Result<NativeApprovalDecision, String>>) -> Option<
    Result<NativeApprovalDecision, Seq<char>>,
> {
    match answer {
        Some(Ok(d)) => Some(Ok(d)),
        Some(Err(e)) => Some(Err(e@)),
        None => None,
    }
}

/// One round of the wait at instant `now`: an answer ends it; without one,
/// the wait ends denied at the deadline, reports progress once the
/// progress instant has come, and otherwise sleeps.
pub open spec fn wait_step(
    now: u128,
    deadline: u128,
    next_progress: u128,
    answer: Option<Result<NativeApprovalDecision, Seq<char>>>,
) -> WaitView {
    match answer {
        Some(Ok(d)) => WaitView::Decided(d),
        Some(Err(e)) => WaitView::Failed(e),
        None => if now >= deadline {
            WaitView::TimedOut
        } else if now >= next_progress {
            WaitView::ReportProgress
        } else {
            WaitView::Sleep
        },
    }
}

/// One round of the wait: `answer` is what the answer file held, if it
/// exists; `deadline` and `next_progress` are instants in milliseconds.
pub fn approval_wait_step(
    now: u128,
    deadline: u128,
    next_progress: u128,
    answer: Option<Result<NativeApprovalDecision, String>>,
) -> (r: ApprovalWait)
    ensures
        r@ == wait_step(now, deadline, next_progress, answer_view(answer)),
{
    match answer {
        Some(Ok(d)) => ApprovalWait::Decided(d),
        Some(Err(e)) => ApprovalWait::Failed(e),
        None => if now >= deadline {
            ApprovalWait::TimedOut
        } else if now >= next_progress {
            ApprovalWait::ReportProgress
        } else {
            ApprovalWait::Sleep
        },
    }
}

// ---------------------------------------------------------------------------
// Laws
// ---------------------------------------------------------------------------

/// The answers that grant nothing.
pub open spec fn grants_nothing(v: Json) -> bool {
    ||| v == decision_json("decline"@)
    ||| v == decision_json("cancel"@)
    ||| v == Json::Object(
        seq![("permissions"@, Json::Object(Seq::empty())), ("scope"@, Json::Str("turn"@))],
    )
    ||| v == Json::Object(
        seq![
            ("decision"@, Json::Str("decline"@)),
            ("reason"@, Json::Str("unsupported Codex approval method"@)),
        ],
    )
}

/// A denied request is never answered with an accepting decision or with
/// granted permissions, whatever it offers.
pub proof fn law_deny_grants_nothing(method: Seq<char>, params: Json)
    ensures
        grants_nothing(approval_response(method, params, NativeApprovalDecision::Deny)),
{
    let d = rejection_decision(params, "decline"@);
    assert(d == "decline"@ || d == "cancel"@);
}

/// An approved command is answered with an accepting decision.
pub proof fn law_approve_accepts_command(params: Json)
    ensures
        approval_response("item/commandExecution/requestApproval"@, params, NativeApprovalDecision::Approve)
            == decision_json(accept_decision(params)),
        accept_decision(params) == "accept"@ || accept_decision(params) == "acceptForSession"@,
{
}

/// An approval counts as waiting only while its record is there and has not
/// expired: each pending id is that of an unexpired regular file named
/// `<id>.json` that is not an answer file.
pub proof fn law_pending_ids_are_unexpired_records(
    entries: Seq<(Seq<char>, bool, Option<Seq<char>>)>,
    now: u128,
    k: int,
)
    requires
        0 <= k < pending_ids(entries, now).len(),
    ensures
        exists|i: int|
            0 <= i < entries.len() && (#[trigger] entries[i]).1 && !record_expired(entries[i].2, now)
                && entries[i].0 == pending_ids(entries, now)[k] + ".json"@ && !ends_with(
                entries[i].0,
                ".decision.json"@,
            ),
    decreases entries.len(),
{
    let prev = pending_ids(entries.drop_last(), now);
    if k < prev.len() {
        law_pending_ids_are_unexpired_records(entries.drop_last(), now, k);
        let i = choose|i: int|
            0 <= i < entries.drop_last().len() && (#[trigger] entries.drop_last()[i]).1
                && !record_expired(entries.drop_last()[i].2, now) && entries.drop_last()[i].0
                == prev[k] + ".json"@ && !ends_with(entries.drop_last()[i].0, ".decision.json"@);
        assert(entries.drop_last()[i] == entries[i]);
        assert(pending_ids(entries, now)[k] == prev[k]);
    } else {
        let e = entries.last();
        let name = e.0;
        reveal_strlit(".json");
        assert(entry_pending_id(e, now) is Some);
        assert(name.skip(name.len() - 5) == ".json"@);
        assert(name.take(name.len() - 5) + ".json"@ =~= name);
        assert(entries[entries.len() - 1] == e);
    }
}

/// Waiting for an approval without an answer: no round before the deadline
/// ends the wait, and every round at or after it ends it denied (the
/// request is then answered as denied); progress is reported only once its
/// instant has come and the deadline has not.
pub proof fn law_unanswered_wait_ends_at_deadline(now: u128, deadline: u128, next_progress: u128)
    ensures
        (wait_step(now, deadline, next_progress, None) == WaitView::TimedOut) <==> now >= deadline,
        (wait_step(now, deadline, next_progress, None) == WaitView::ReportProgress) <==> (now < deadline
            && now >= next_progress),
{
}

/// An answer ends the wait whenever it arrives, even after the deadline.
pub proof fn law_answer_ends_wait(
    now: u128,
    deadline: u128,
    next_progress: u128,
    decision: NativeApprovalDecision,
)
    ensures
        wait_step(now, deadline, next_progress, Some(Ok(decision))) == WaitView::Decided(decision),
{
}

/// Approving a command or a file change is answered with an accepting
/// decision (`accept`, or `acceptForSession` when only that is offered),
/// and denying it with a refusing one (`decline` or `cancel`): the two
/// answers always differ.
pub proof fn law_approve_and_deny_answer_differently(method: Seq<char>, params: Json)
    requires
        method == "item/commandExecution/requestApproval"@ || method == "item/fileChange/requestApproval"@,
    ensures
        exists|d: Seq<char>|
            (d == "accept"@ || d == "acceptForSession"@) && approval_response(
                method,
                params,
                NativeApprovalDecision::Approve,
            ) == (Json::Object(seq![("decision"@, Json::Str(d))])),
        exists|d: Seq<char>|
            (d == "decline"@ || d == "cancel"@) && approval_response(
                method,
                params,
                NativeApprovalDecision::Deny,
            ) == (Json::Object(seq![("decision"@, Json::Str(d))])),
        approval_response(method, params, NativeApprovalDecision::Approve) != approval_response(
            method,
            params,
            NativeApprovalDecision::Deny,
        ),
{
    reveal_strlit("accept");
    reveal_strlit("acceptForSession");
    reveal_strlit("decline");
    reveal_strlit("cancel");
    let a = if method == "item/commandExecution/requestApproval"@ {
        accept_decision(params)
    } else {
        "accept"@
    };
    let r = if method == "item/commandExecution/requestApproval"@ {
        rejection_decision(params, "decline"@)
    } else {
        "decline"@
    };
    assert(a == "accept"@ || a == "acceptForSession"@);
    assert(r == "decline"@ || r == "cancel"@);
    assert(approval_response(method, params, NativeApprovalDecision::Approve) == decision_json(a));
    assert(approval_response(method, params, NativeApprovalDecision::Deny) == decision_json(r));
    assert(a != r) by {
        assert(a[0] == 'a');
        assert(r[0] == 'd' || r[0] == 'c');
    }
    let ja = decision_json(a);
    let jr = decision_json(r);
    if ja == jr {
        let fa: Seq<(Seq<char>, Json)> = seq![("decision"@, Json::Str(a))];
        let fr: Seq<(Seq<char>, Json)> = seq![("decision"@, Json::Str(r))];
        assert(fa[0].1 == fr[0].1);
    }
}

} // verus!
