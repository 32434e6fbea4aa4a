//! The Codex app-server ("remote") conversation: the JSON-RPC messages that
//! wecode sends, and how it reads Codex's notifications into the turn's
//! final answer.  The program drives the proxy process and feeds each
//! message it reads to these functions.
use crate::backend::{opt_str, request_model};
use crate::config::{codex_model_from_openclaw_model, CodexTransport, WecodeConfig};
use crate::json::{
    field_views, jarray, jget, jget_opt, json_as_array, json_as_str, json_clone, json_get,
    json_get_opt, json_str_field, jstr, jv_array, jv_object, jv_str, ref_val, views, Json,
    JsonValue,
};
use crate::text::{
    chars_to_string, concat2, eq_slices, lit_eq, opt_seq, opt_string, str_chars, strings_view,
    trim, trim_slice,
};
use vstd::prelude::*;

verus! {

/// One prompt for the remote backend.
pub struct CodexRemoteRunRequest<'a> {
    pub config: &'a WecodeConfig,
    pub prompt: &'a str,
    pub selected_model: Option<&'a str>,
    pub resume_session_id: Option<&'a str>,
}

/// The thread a remote turn ran in and its final answer.
#[derive(Debug, Clone, PartialEq, Eq)]
pub struct CodexRemoteRunResult {
    pub thread_id: String,
    pub final_message: String,
}

// ---------------------------------------------------------------------------
// Which commands to run
// ---------------------------------------------------------------------------

/// The app-server proxy commands to try, in order: the configured proxy,
/// then the fallback unless it is the same; blank ones are skipped.
pub open spec fn proxy_commands(c: WecodeConfig) -> Seq<Seq<char>> {
    let primary = trim(c.codex.remote.proxy_command@);
    let fallback = trim(c.codex.remote.fallback_proxy_command@);
    let first = if primary.len() > 0 {
        seq![primary]
    } else {
        Seq::empty()
    };
    if fallback.len() > 0 && !first.contains(fallback) {
        first.push(fallback)
    } else {
        first
    }
}

pub fn remote_proxy_commands(config: &WecodeConfig) -> (r: Vec<String>)
    ensures
        strings_view(r@) == proxy_commands(*config),
{
    let mut commands: Vec<String> = Vec::new();
    let p = str_chars(config.codex.remote.proxy_command.as_str());
    let primary = trim_slice(p.as_slice());
    if primary.len() > 0 {
        commands.push(chars_to_string(primary));
    }
    let ghost first = strings_view(commands@);
    assert(first =~= (if primary@.len() > 0 {
        seq![primary@]
    } else {
        Seq::<Seq<char>>::empty()
    }));
    let f = str_chars(config.codex.remote.fallback_proxy_command.as_str());
    let fallback = trim_slice(f.as_slice());
    if fallback.len() > 0 {
        let same = primary.len() > 0 && eq_slices(primary, fallback);
        proof {
            if primary@.len() > 0 {
                assert(first.contains(fallback@) <==> first[0] == fallback@);
            } else {
                assert(!first.contains(fallback@));
            }
        }
        if !same {
            commands.push(chars_to_string(fallback));
            assert(strings_view(commands@) =~= first.push(fallback@));
        }
    }
    commands
}

/// The command that starts the remote-control daemon, when it is to be
/// started (automatic start on and a command configured).
pub fn remote_daemon_start_command(config: &WecodeConfig) -> (r: Option<String>)
    ensures
        opt_string(r) == (if config.codex.remote.auto_start && trim(
            config.codex.remote.start_command@,
        ).len() > 0 {
            Some(trim(config.codex.remote.start_command@))
        } else {
            None
        }),
{
    if !config.codex.remote.auto_start {
        return None;
    }
    let c = str_chars(config.codex.remote.start_command.as_str());
    let t = trim_slice(c.as_slice());
    if t.len() == 0 {
        None
    } else {
        Some(chars_to_string(t))
    }
}

// ---------------------------------------------------------------------------
// Requests
// ---------------------------------------------------------------------------

pub open spec fn sj(s: Seq<char>) -> Json {
    Json::Str(s)
}

pub open spec fn opt_json_str(o: Option<Seq<char>>) -> Json {
    match o {
        Some(s) => Json::Str(s),
        None => Json::Null,
    }
}

/// A JSON-RPC request.
pub open spec fn rpc_request(id: u64, method: Seq<char>, params: Json) -> Json {
    Json::Object(
        seq![
            ("jsonrpc"@, sj("2.0"@)),
            ("id"@, Json::Number(id)),
            ("method"@, sj(method)),
            ("params"@, params),
        ],
    )
}

pub fn rpc_request_value(id: u64, method: &str, params: JsonValue) -> (r: JsonValue)
    ensures
        r@ == rpc_request(id, method@, params@),
{
    let ghost pv = params@;
    let mut fields: Vec<(String, JsonValue)> = Vec::new();
    fields.push(("jsonrpc".to_owned(), jv_str("2.0".to_owned())));
    fields.push(("id".to_owned(), JsonValue::Number(id)));
    fields.push(("method".to_owned(), jv_str(method.to_owned())));
    fields.push(("params".to_owned(), params));
    let r = jv_object(fields);
    assert(field_views(fields@) =~= seq![
        ("jsonrpc"@, sj("2.0"@)),
        ("id"@, Json::Number(id)),
        ("method"@, sj(method@)),
        ("params"@, pv),
    ]);
    r
}

/// The `initialize` parameters: wecode's client information.
pub open spec fn initialize_params(version: Seq<char>) -> Json {
    Json::Object(
        seq![
            (
                "clientInfo"@,
                Json::Object(
                    seq![
                        ("name"@, sj("wecode"@)),
                        ("title"@, sj("Wecode"@)),
                        ("version"@, sj(version)),
                    ],
                ),
            ),
            ("capabilities"@, Json::Object(seq![("experimentalApi"@, Json::Bool(true))])),
        ],
    )
}

pub fn initialize_params_value(version: &str) -> (r: JsonValue)
    ensures
        r@ == initialize_params(version@),
{
    let mut info: Vec<(String, JsonValue)> = Vec::new();
    info.push(("name".to_owned(), jv_str("wecode".to_owned())));
    info.push(("title".to_owned(), jv_str("Wecode".to_owned())));
    info.push(("version".to_owned(), jv_str(version.to_owned())));
    let info_v = jv_object(info);
    assert(field_views(info@) =~= seq![
        ("name"@, sj("wecode"@)),
        ("title"@, sj("Wecode"@)),
        ("version"@, sj(version@)),
    ]);
    let ghost iv = info_v@;
    let mut caps: Vec<(String, JsonValue)> = Vec::new();
    caps.push(("experimentalApi".to_owned(), JsonValue::Bool(true)));
    let caps_v = jv_object(caps);
    assert(field_views(caps@) =~= seq![("experimentalApi"@, Json::Bool(true))]);
    let ghost cv = caps_v@;
    let mut fields: Vec<(String, JsonValue)> = Vec::new();
    fields.push(("clientInfo".to_owned(), info_v));
    fields.push(("capabilities".to_owned(), caps_v));
    let r = jv_object(fields);
    assert(field_views(fields@) =~= seq![("clientInfo"@, iv), ("capabilities"@, cv)]);
    r
}

/// The model a remote turn uses (see `request_model`).
pub fn effective_codex_model(config: &WecodeConfig, selected_model: Option<&str>) -> (r: Option<
    String,
>)
    ensures
        opt_string(r) == request_model(opt_str(selected_model), opt_string(config.codex.model)),
{
    if let Some(model) = selected_model {
        match codex_model_from_openclaw_model(model) {
            Some(m) => {
                return Some(m);
            },
            None => {},
        }
    }
    config.codex.model.clone()
}

fn opt_str_value(o: Option<String>) -> (r: JsonValue)
    ensures
        r@ == opt_json_str(opt_string(o)),
{
    match o {
        Some(s) => jv_str(s),
        None => JsonValue::Null,
    }
}

/// The `thread/start` (or, with a session, `thread/resume`) parameters; in
/// yolo mode Codex runs without sandbox and never asks for approval.
pub open spec fn thread_params(
    c: WecodeConfig,
    selected: Option<Seq<char>>,
    resume: Option<Seq<char>>,
    cwd: Seq<char>,
    yolo: bool,
) -> Json {
    let base = seq![
        ("cwd"@, sj(cwd)),
        ("model"@, opt_json_str(request_model(selected, opt_string(c.codex.model)))),
        ("sandbox"@, sj(if yolo {
            "danger-full-access"@
        } else {
            c.codex.sandbox@
        })),
    ];
    let with_policy = if yolo {
        base.push(("approvalPolicy"@, sj("never"@)))
    } else {
        base
    };
    Json::Object(
        match resume {
            Some(s) => with_policy.push(("threadId"@, sj(s))),
            None => with_policy,
        },
    )
}

pub fn thread_params_value(
    config: &WecodeConfig,
    selected_model: Option<&str>,
    resume_session_id: Option<&str>,
    cwd: &str,
    yolo: bool,
) -> (r: JsonValue)
    ensures
        r@ == thread_params(*config, opt_str(selected_model), opt_str(resume_session_id), cwd@, yolo),
{
    let model = opt_str_value(effective_codex_model(config, selected_model));
    let ghost mv = model@;
    let mut fields: Vec<(String, JsonValue)> = Vec::new();
    fields.push(("cwd".to_owned(), jv_str(cwd.to_owned())));
    fields.push(("model".to_owned(), model));
    let sandbox = if yolo {
        "danger-full-access".to_owned()
    } else {
        config.codex.sandbox.clone()
    };
    fields.push(("sandbox".to_owned(), jv_str(sandbox)));
    if yolo {
        fields.push(("approvalPolicy".to_owned(), jv_str("never".to_owned())));
    }
    match resume_session_id {
        Some(s) => fields.push(("threadId".to_owned(), jv_str(s.to_owned()))),
        None => {},
    }
    let r = jv_object(fields);
    proof {
        let expected = thread_params(
            *config,
            opt_str(selected_model),
            opt_str(resume_session_id),
            cwd@,
            yolo,
        );
        assert(field_views(fields@) =~= match expected {
            Json::Object(ms) => ms,
            _ => Seq::empty(),
        });
    }
    r
}

/// The `turn/start` parameters for a prompt; in yolo mode the turn runs
/// with full access and no approvals.
pub open spec fn turn_params(
    thread_id: Seq<char>,
    prompt: Seq<char>,
    cwd: Seq<char>,
    model: Option<Seq<char>>,
    yolo: bool,
) -> Json {
    let base = seq![
        ("threadId"@, sj(thread_id)),
        (
            "input"@,
            Json::Array(
                seq![
                    Json::Object(
                        seq![
                            ("type"@, sj("text"@)),
                            ("text"@, sj(prompt)),
                            ("text_elements"@, Json::Array(Seq::empty())),
                        ],
                    ),
                ],
            ),
        ),
        ("cwd"@, sj(cwd)),
        ("model"@, opt_json_str(model)),
    ];
    Json::Object(
        if yolo {
            base + seq![
                ("approvalPolicy"@, sj("never"@)),
                ("sandboxPolicy"@, Json::Object(seq![("type"@, sj("dangerFullAccess"@))])),
            ]
        } else {
            base
        },
    )
}

pub fn turn_params_value(
    thread_id: &str,
    prompt: &str,
    cwd: &str,
    model: Option<String>,
    yolo: bool,
) -> (r: JsonValue)
    ensures
        r@ == turn_params(thread_id@, prompt@, cwd@, opt_string(model), yolo),
{
    let empty: Vec<JsonValue> = Vec::new();
    let elements = jv_array(empty);
    assert(views(empty@) =~= Seq::<Json>::empty());
    let mut text: Vec<(String, JsonValue)> = Vec::new();
    text.push(("type".to_owned(), jv_str("text".to_owned())));
    text.push(("text".to_owned(), jv_str(prompt.to_owned())));
    text.push(("text_elements".to_owned(), elements));
    let text_v = jv_object(text);
    assert(field_views(text@) =~= seq![
        ("type"@, sj("text"@)),
        ("text"@, sj(prompt@)),
        ("text_elements"@, Json::Array(Seq::empty())),
    ]);
    let ghost tv = text_v@;
    let mut input: Vec<JsonValue> = Vec::new();
    input.push(text_v);
    let input_v = jv_array(input);
    assert(views(input@) =~= seq![tv]);
    let ghost inv = input_v@;
    let model_v = opt_str_value(model);
    let ghost mv = model_v@;
    let mut fields: Vec<(String, JsonValue)> = Vec::new();
    fields.push(("threadId".to_owned(), jv_str(thread_id.to_owned())));
    fields.push(("input".to_owned(), input_v));
    fields.push(("cwd".to_owned(), jv_str(cwd.to_owned())));
    fields.push(("model".to_owned(), model_v));
    let ghost base = field_views(fields@);
    assert(base =~= seq![
        ("threadId"@, sj(thread_id@)),
        ("input"@, inv),
        ("cwd"@, sj(cwd@)),
        ("model"@, mv),
    ]);
    if yolo {
        let mut policy: Vec<(String, JsonValue)> = Vec::new();
        policy.push(("type".to_owned(), jv_str("dangerFullAccess".to_owned())));
        let policy_v = jv_object(policy);
        assert(field_views(policy@) =~= seq![("type"@, sj("dangerFullAccess"@))]);
        fields.push(("approvalPolicy".to_owned(), jv_str("never".to_owned())));
        fields.push(("sandboxPolicy".to_owned(), policy_v));
        assert(field_views(fields@) =~= base + seq![
            ("approvalPolicy"@, sj("never"@)),
            ("sandboxPolicy"@, Json::Object(seq![("type"@, sj("dangerFullAccess"@))])),
        ]);
    }
    jv_object(fields)
}

// ---------------------------------------------------------------------------
// Responses
// ---------------------------------------------------------------------------

/// `thread.id` of a `thread/start` or `thread/resume` result.
pub open spec fn thread_id_of(response: Json) -> Option<Seq<char>> {
    jstr(jget_opt(jget(response, "thread"@), "id"@))
}

pub fn extract_thread_id(response: &JsonValue) -> (r: Option<String>)
    ensures
        opt_string(r) == thread_id_of(response@),
{
    let tk = str_chars("thread");
    let ik = str_chars("id");
    match json_str_field(json_get(response, tk.as_slice()), ik.as_slice()) {
        Some(s) => Some(chars_to_string(s.as_slice())),
        None => None,
    }
}

/// (last agent message, last final answer) among a turn's items.
pub open spec fn turn_messages(items: Seq<Json>) -> (Option<Seq<char>>, Option<Seq<char>>)
    decreases items.len(),
{
    if items.len() == 0 {
        (None, None)
    } else {
        let prev = turn_messages(items.drop_last());
        let item = items.last();
        if jstr(jget(item, "type"@)) == Some("agentMessage"@) {
            match jstr(jget(item, "text"@)) {
                Some(t) => (
                    Some(t),
                    if jstr(jget(item, "phase"@)) == Some("final_answer"@) {
                        Some(t)
                    } else {
                        prev.1
                    },
                ),
                None => prev,
            }
        } else {
            prev
        }
    }
}

/// A completed turn's answer: its last final answer, else its last agent
/// message.
pub open spec fn final_message_of(turn: Option<Json>) -> Option<Seq<char>> {
    match jarray(jget_opt(turn, "items"@)) {
        None => None,
        Some(items) => {
            let m = turn_messages(items);
            match m.1 {
                Some(f) => Some(f),
                None => m.0,
            }
        },
    }
}

fn str_field_is(v: &JsonValue, key: &str, expected: &str) -> (r: bool)
    ensures
        r == (jstr(jget(v@, key@)) == Some(expected@)),
{
    let k = str_chars(key);
    match json_str_field(Some(v), k.as_slice()) {
        Some(s) => lit_eq(s.as_slice(), expected),
        None => false,
    }
}

/// The last agent message and the last final answer among `items`.
fn item_messages(items: &Vec<JsonValue>) -> (r: (Option<Vec<char>>, Option<Vec<char>>))
    ensures
        (opt_seq(r.0), opt_seq(r.1)) == turn_messages(views(items@)),
{
    let ghost iv = views(items@);
    let mut last_agent: Option<Vec<char>> = None;
    let mut last_final: Option<Vec<char>> = None;
    let mut i: usize = 0;
    assert(iv.take(0) =~= Seq::<Json>::empty());
    while i < items.len()
        invariant
            i <= items.len(),
            iv == views(items@),
            (opt_seq(last_agent), opt_seq(last_final)) == turn_messages(iv.take(i as int)),
        decreases items.len() - i,
    {
        assert(iv.take(i + 1).drop_last() =~= iv.take(i as int));
        assert(iv.take(i + 1).last() == items@[i as int]@);
        let item = &items[i];
        if str_field_is(item, "type", "agentMessage") {
            let tk = str_chars("text");
            match json_str_field(Some(item), tk.as_slice()) {
                Some(t) => {
                    if str_field_is(item, "phase", "final_answer") {
                        last_final = Some(concat2(t.as_slice(), &[]));
                    }
                    last_agent = Some(t);
                },
                None => {},
            }
        }
        i += 1;
    }
    assert(iv.take(items.len() as int) =~= iv);
    (last_agent, last_final)
}

pub fn extract_final_message(turn: Option<&JsonValue>) -> (r: Option<String>)
    ensures
        opt_string(r) == final_message_of(ref_val(turn)),
{
    let ik = str_chars("items");
    let items = match json_as_array(json_get_opt(turn, ik.as_slice())) {
        Some(items) => items,
        None => return None,
    };
    let (last_agent, last_final) = item_messages(items);
    match last_final {
        Some(f) => Some(chars_to_string(f.as_slice())),
        None => match last_agent {
            Some(a) => Some(chars_to_string(a.as_slice())),
            None => None,
        },
    }
}

/// What the chat is told when the user denied a request of the turn and
/// Codex gave no final answer.
pub open spec fn denial_notice() -> Seq<char> {
    "已拒绝权限请求。"@
}

/// The answer of a turn in which the user denied an approval: the turn's
/// last final answer, else the denial notice; a message Codex wrote while
/// still at work is not passed on as the answer.
pub open spec fn answer_after_denial(turn: Option<Json>) -> Seq<char> {
    match jarray(jget_opt(turn, "items"@)) {
        Some(items) => match turn_messages(items).1 {
            Some(f) => f,
            None => denial_notice(),
        },
        None => denial_notice(),
    }
}

pub fn final_answer_after_denial(turn: Option<&JsonValue>) -> (r: String)
    ensures
        r@ == answer_after_denial(ref_val(turn)),
{
    let ik = str_chars("items");
    let notice = str_chars("已拒绝权限请求。");
    match json_as_array(json_get_opt(turn, ik.as_slice())) {
        Some(items) => {
            let (_, last_final) = item_messages(items);
            match last_final {
                Some(f) => chars_to_string(f.as_slice()),
                None => chars_to_string(notice.as_slice()),
            }
        },
        None => chars_to_string(notice.as_slice()),
    }
}

// ---------------------------------------------------------------------------
// Server requests and replies
// ---------------------------------------------------------------------------

/// The answer wecode gives to a request from Codex while no user can be
/// asked: approvals are declined, other requests get `null`.
pub open spec fn decline_result(method: Seq<char>) -> Json {
    if method == "item/commandExecution/requestApproval"@ || method
        == "item/fileChange/requestApproval"@ {
        Json::Object(seq![("decision"@, sj("decline"@))])
    } else if method == "item/permissions/requestApproval"@ {
        Json::Object(
            seq![
                ("permissions"@, Json::Object(Seq::empty())),
                ("scope"@, sj("turn"@)),
                ("strictAutoReview"@, Json::Bool(true)),
            ],
        )
    } else {
        Json::Null
    }
}

pub open spec fn method_of(message: Json) -> Seq<char> {
    match jstr(jget(message, "method"@)) {
        Some(m) => m,
        None => Seq::empty(),
    }
}

/// The JSON-RPC response that declines a server request (none when the
/// request has no id).
pub open spec fn decline_response(message: Json) -> Option<Json> {
    match jget(message, "id"@) {
        None => None,
        Some(id) => Some(
            Json::Object(
                seq![
                    ("jsonrpc"@, sj("2.0"@)),
                    ("id"@, id),
                    ("result"@, decline_result(method_of(message))),
                ],
            ),
        ),
    }
}

pub fn decline_server_request(message: &JsonValue) -> (r: Option<JsonValue>)
    ensures
        match r {
            Some(v) => decline_response(message@) == Some(v@),
            None => decline_response(message@) is None,
        },
{
    let ik = str_chars("id");
    let id = match json_get(message, ik.as_slice()) {
        Some(id) => json_clone(id),
        None => return None,
    };
    let ghost idv = id@;
    let mk = str_chars("method");
    let method = match json_str_field(Some(message), mk.as_slice()) {
        Some(m) => m,
        None => Vec::new(),
    };
    let ghost mv = method@;
    let result = if lit_eq(method.as_slice(), "item/commandExecution/requestApproval") || lit_eq(
        method.as_slice(),
        "item/fileChange/requestApproval",
    ) {
        let mut f: Vec<(String, JsonValue)> = Vec::new();
        f.push(("decision".to_owned(), jv_str("decline".to_owned())));
        let v = jv_object(f);
        assert(field_views(f@) =~= seq![("decision"@, sj("decline"@))]);
        v
    } else if lit_eq(method.as_slice(), "item/permissions/requestApproval") {
        let empty: Vec<(String, JsonValue)> = Vec::new();
        let e = jv_object(empty);
        assert(field_views(empty@) =~= Seq::<(Seq<char>, Json)>::empty());
        let mut f: Vec<(String, JsonValue)> = Vec::new();
        f.push(("permissions".to_owned(), e));
        f.push(("scope".to_owned(), jv_str("turn".to_owned())));
        f.push(("strictAutoReview".to_owned(), JsonValue::Bool(true)));
        let v = jv_object(f);
        assert(field_views(f@) =~= seq![
            ("permissions"@, Json::Object(Seq::empty())),
            ("scope"@, sj("turn"@)),
            ("strictAutoReview"@, Json::Bool(true)),
        ]);
        v
    } else {
        JsonValue::Null
    };
    let ghost rv = result@;
    assert(mv == method_of(message@));
    assert(rv == decline_result(mv));
    let mut fields: Vec<(String, JsonValue)> = Vec::new();
    fields.push(("jsonrpc".to_owned(), jv_str("2.0".to_owned())));
    fields.push(("id".to_owned(), id));
    fields.push(("result".to_owned(), result));
    let r = jv_object(fields);
    assert(field_views(fields@) =~= seq![("jsonrpc"@, sj("2.0"@)), ("id"@, idv), ("result"@, rv)]);
    assert(jget(message@, "id"@) == Some(idv));
    assert(r@ == Json::Object(seq![("jsonrpc"@, sj("2.0"@)), ("id"@, idv), ("result"@, rv)]));
    assert(decline_response(message@) == Some(r@));
    Some(r)
}

/// What a message read while waiting for the reply to request `id` is.
pub enum RpcReply {
    /// The reply: its `result` (or `null`), or the error it reports.
    Mine(Result<JsonValue, String>),
    /// A request from Codex, to be declined.
    ServerRequest,
    /// Anything else, ignored.
    Other,
}

pub open spec fn is_server_request(message: Json) -> bool {
    jget(message, "id"@) is Some && jget(message, "method"@) is Some
}

/// Classifies a message received while waiting for the reply to request
/// `id` (sent with `method`).
pub fn classify_reply(message: &JsonValue, id: u64, method: &str) -> (r: RpcReply)
    ensures
        (jget(message@, "id"@) == Some(Json::Number(id))) <==> r is Mine,
        r matches RpcReply::Mine(Ok(v)) ==> jget(message@, "error"@) is None && v@ == match jget(
            message@,
            "result"@,
        ) {
            Some(x) => x,
            None => Json::Null,
        },
        r matches RpcReply::Mine(Err(e)) ==> jget(message@, "error"@) matches Some(err) && e@
            == "Codex app-server `"@ + method@ + "` failed: "@ + crate::json::json_text(err),
        r is ServerRequest <==> jget(message@, "id"@) != Some(Json::Number(id)) && is_server_request(
            message@,
        ),
{
    let ik = str_chars("id");
    let mid = json_get(message, ik.as_slice());
    let mine = match mid {
        Some(JsonValue::Number(n)) => *n == id,
        _ => false,
    };
    if mine {
        let ek = str_chars("error");
        match json_get(message, ek.as_slice()) {
            Some(err) => {
                let text = crate::json::render_json(err);
                let t = str_chars(text.as_str());
                let m = str_chars(method);
                let a = crate::text::lit_then("Codex app-server `", m.as_slice());
                let b = crate::text::with_lit(a.as_slice(), "` failed: ");
                let c = concat2(b.as_slice(), t.as_slice());
                RpcReply::Mine(Err(chars_to_string(c.as_slice())))
            },
            None => {
                let rk = str_chars("result");
                match json_get(message, rk.as_slice()) {
                    Some(x) => RpcReply::Mine(Ok(json_clone(x))),
                    None => RpcReply::Mine(Ok(JsonValue::Null)),
                }
            },
        }
    } else {
        let mk = str_chars("method");
        if mid.is_some() && json_get(message, mk.as_slice()).is_some() {
            RpcReply::ServerRequest
        } else {
            RpcReply::Other
        }
    }
}

// ---------------------------------------------------------------------------
// Following a turn
// ---------------------------------------------------------------------------

/// What the notifications of a running turn have shown so far: the text of
/// each agent message by item id (in order of first delta), the last agent
/// message and the last final answer.
pub struct RemoteTurnState {
    pub message_deltas: Vec<(String, String)>,
    pub last_agent_message: Option<String>,
    pub last_final_message: Option<String>,
}

pub struct TurnView {
    pub deltas: Seq<(Seq<char>, Seq<char>)>,
    pub agent: Option<Seq<char>>,
    pub final_msg: Option<Seq<char>>,
}

pub open spec fn pairs_view(p: Seq<(String, String)>) -> Seq<(Seq<char>, Seq<char>)> {
    p.map_values(|kv: (String, String)| (kv.0@, kv.1@))
}

impl View for RemoteTurnState {
    type V = TurnView;

    open spec fn view(&self) -> TurnView {
        TurnView {
            deltas: pairs_view(self.message_deltas@),
            agent: opt_string(self.last_agent_message),
            final_msg: opt_string(self.last_final_message),
        }
    }
}

/// Index of the entry for `id`.
pub open spec fn delta_index(ds: Seq<(Seq<char>, Seq<char>)>, id: Seq<char>) -> Option<int>
    decreases ds.len(),
{
    if ds.len() == 0 {
        None
    } else if ds.last().0 == id {
        Some(ds.len() - 1)
    } else {
        delta_index(ds.drop_last(), id)
    }
}

/// The deltas with `d` appended to the text of `id`.
pub open spec fn add_delta(ds: Seq<(Seq<char>, Seq<char>)>, id: Seq<char>, d: Seq<char>) -> Seq<
    (Seq<char>, Seq<char>),
> {
    match delta_index(ds, id) {
        Some(k) => ds.update(k, (id, ds[k].1 + d)),
        None => ds.push((id, d)),
    }
}

pub open spec fn same_turn_view(a: TurnView, b: TurnView) -> bool {
    a.deltas == b.deltas && a.agent == b.agent && a.final_msg == b.final_msg
}

/// The turn state after a notification.
pub open spec fn observe(st: TurnView, message: Json) -> TurnView {
    let method = jstr(jget(message, "method"@));
    if method == Some("item/agentMessage/delta"@) {
        let params = jget(message, "params"@);
        match (jstr(jget_opt(params, "itemId"@)), jstr(jget_opt(params, "delta"@))) {
            (Some(id), Some(d)) => TurnView { deltas: add_delta(st.deltas, id, d), ..st },
            _ => st,
        }
    } else if method == Some("item/completed"@) || method == Some("item/started"@) {
        let item = match jget_opt(jget(message, "params"@), "item"@) {
            Some(i) => i,
            None => Json::Null,
        };
        if jstr(jget(item, "type"@)) != Some("agentMessage"@) {
            st
        } else {
            let own = jstr(jget(item, "text"@));
            let text = if own is Some && own->0.len() > 0 {
                own
            } else {
                match jstr(jget(item, "id"@)) {
                    Some(id) => match delta_index(st.deltas, id) {
                        Some(k) => if st.deltas[k].1.len() > 0 {
                            Some(st.deltas[k].1)
                        } else {
                            None
                        },
                        None => None,
                    },
                    None => None,
                }
            };
            match text {
                Some(t) => TurnView {
                    agent: Some(t),
                    final_msg: if jstr(jget(item, "phase"@)) == Some("final_answer"@) {
                        Some(t)
                    } else {
                        st.final_msg
                    },
                    ..st
                },
                None => st,
            }
        }
    } else {
        st
    }
}

/// The last non-empty delta text.
pub open spec fn last_nonempty(ds: Seq<(Seq<char>, Seq<char>)>) -> Option<Seq<char>>
    decreases ds.len(),
{
    if ds.len() == 0 {
        None
    } else if ds.last().1.len() > 0 {
        Some(ds.last().1)
    } else {
        last_nonempty(ds.drop_last())
    }
}

/// The turn's answer so far: the last final answer, else the last agent
/// message, else the last non-empty streamed text.
pub open spec fn turn_final(st: TurnView) -> Option<Seq<char>> {
    match st.final_msg {
        Some(f) => Some(f),
        None => match st.agent {
            Some(a) => Some(a),
            None => last_nonempty(st.deltas),
        },
    }
}

fn find_delta(ds: &Vec<(String, String)>, id: &[char]) -> (r: Option<usize>)
    ensures
        opt_int_usize(r) == delta_index(pairs_view(ds@), id@),
        r matches Some(k) ==> k < ds.len(),
{
    let ghost pv = pairs_view(ds@);
    let mut n = ds.len();
    assert(pv.take(n as int) =~= pv);
    while n > 0
        invariant
            n <= ds.len(),
            pv == pairs_view(ds@),
            delta_index(pv, id@) == delta_index(pv.take(n as int), id@),
        decreases n,
    {
        assert(pv.take(n as int).drop_last() =~= pv.take(n - 1));
        assert(pv.take(n as int).last() == pv[n - 1]);
        let k = str_chars(ds[n - 1].0.as_str());
        if eq_slices(k.as_slice(), id) {
            assert(pv.take(n as int).len() - 1 == n - 1);
            return Some(n - 1);
        }
        n -= 1;
    }
    None
}

pub open spec fn opt_int_usize(o: Option<usize>) -> Option<int> {
    match o {
        Some(k) => Some(k as int),
        None => None,
    }
}

impl RemoteTurnState {
    pub fn new() -> (s: Self)
        ensures
            s@.deltas.len() == 0,
            s@.agent is None,
            s@.final_msg is None,
    {
        RemoteTurnState {
            message_deltas: Vec::new(),
            last_agent_message: None,
            last_final_message: None,
        }
    }

    /// Takes in one notification of the running turn.
    pub fn observe_notification(&mut self, message: &JsonValue)
        ensures
            same_turn_view(final(self)@, observe(old(self)@, message@)),
    {
        let mk = str_chars("method");
        let method = json_str_field(Some(message), mk.as_slice());
        let pk = str_chars("params");
        let params = json_get(message, pk.as_slice());
        let is_delta = match &method {
            Some(m) => lit_eq(m.as_slice(), "item/agentMessage/delta"),
            None => false,
        };
        let is_item = match &method {
            Some(m) => lit_eq(m.as_slice(), "item/completed") || lit_eq(m.as_slice(), "item/started"),
            None => false,
        };
        if is_delta {
            let idk = str_chars("itemId");
            let dk = str_chars("delta");
            let id = json_str_field(params, idk.as_slice());
            let delta = json_str_field(params, dk.as_slice());
            match (id, delta) {
                (Some(id), Some(d)) => {
                    let ghost before = pairs_view(self.message_deltas@);
                    match find_delta(&self.message_deltas, id.as_slice()) {
                        Some(k) => {
                            let cur = str_chars(self.message_deltas[k].1.as_str());
                            let joined = concat2(cur.as_slice(), d.as_slice());
                            let entry = (chars_to_string(id.as_slice()), chars_to_string(joined.as_slice()));
                            self.message_deltas.set(k, entry);
                            assert(pairs_view(self.message_deltas@) =~= before.update(
                                k as int,
                                (id@, before[k as int].1 + d@),
                            ));
                        },
                        None => {
                            self.message_deltas.push(
                                (chars_to_string(id.as_slice()), chars_to_string(d.as_slice())),
                            );
                            assert(pairs_view(self.message_deltas@) =~= before.push((id@, d@)));
                        },
                    }
                },
                _ => {},
            }
        } else if is_item {
            let ik = str_chars("item");
            let item_ref = json_get_opt(params, ik.as_slice());
            let null = JsonValue::Null;
            let item: &JsonValue = match item_ref {
                Some(i) => i,
                None => &null,
            };
            if !str_field_is(item, "type", "agentMessage") {
                return;
            }
            let tk = str_chars("text");
            let own = json_str_field(Some(item), tk.as_slice());
            let text: Option<Vec<char>> = match own {
                Some(t) if t.len() > 0 => Some(t),
                _ => {
                    let idk = str_chars("id");
                    match json_str_field(Some(item), idk.as_slice()) {
                        Some(id) => match find_delta(&self.message_deltas, id.as_slice()) {
                            Some(k) => {
                                let t = str_chars(self.message_deltas[k].1.as_str());
                                if t.len() > 0 {
                                    Some(t)
                                } else {
                                    None
                                }
                            },
                            None => None,
                        },
                        None => None,
                    }
                },
            };
            match text {
                Some(t) => {
                    if str_field_is(item, "phase", "final_answer") {
                        self.last_final_message = Some(chars_to_string(t.as_slice()));
                    }
                    self.last_agent_message = Some(chars_to_string(t.as_slice()));
                },
                None => {},
            }
        }
    }

    /// The answer the turn has given so far (see `turn_final`).
    pub fn final_message(&self) -> (r: Option<String>)
        ensures
            opt_string(r) == turn_final(self@),
    {
        if let Some(f) = &self.last_final_message {
            return Some(f.clone());
        }
        if let Some(a) = &self.last_agent_message {
            return Some(a.clone());
        }
        let ghost pv = pairs_view(self.message_deltas@);
        let mut n = self.message_deltas.len();
        assert(pv.take(n as int) =~= pv);
        while n > 0
            invariant
                n <= self.message_deltas.len(),
                pv == pairs_view(self.message_deltas@),
                self.last_final_message is None,
                self.last_agent_message is None,
                last_nonempty(pv) == last_nonempty(pv.take(n as int)),
            decreases n,
        {
            assert(pv.take(n as int).drop_last() =~= pv.take(n - 1));
            assert(pv.take(n as int).last() == pv[n - 1]);
            assert(pv[n - 1] == (self.message_deltas@[n - 1].0@, self.message_deltas@[n - 1].1@));
            if !self.message_deltas[n - 1].1.as_str().is_empty() {
                return Some(self.message_deltas[n - 1].1.clone());
            }
            n -= 1;
        }
        None
    }
}

/// The agent message that an `item/completed` notification carries, with
/// whether it is the final answer.
pub open spec fn completed_message(message: Json) -> Option<(Seq<char>, bool)> {
    if jstr(jget(message, "method"@)) == Some("item/completed"@) {
        let item = jget_opt(jget(message, "params"@), "item"@);
        if jstr(jget_opt(item, "type"@)) == Some("agentMessage"@) {
            match jstr(jget_opt(item, "text"@)) {
                Some(t) => Some((t, jstr(jget_opt(item, "phase"@)) == Some("final_answer"@))),
                None => None,
            }
        } else {
            None
        }
    } else {
        None
    }
}

pub fn completed_agent_message(message: &JsonValue) -> (r: Option<(String, bool)>)
    ensures
        match r {
            Some((t, f)) => completed_message(message@) == Some((t@, f)),
            None => completed_message(message@) is None,
        },
{
    let mk = str_chars("method");
    match json_str_field(Some(message), mk.as_slice()) {
        Some(m) => {
            if !lit_eq(m.as_slice(), "item/completed") {
                return None;
            }
        },
        None => {
            return None;
        },
    }
    let pk = str_chars("params");
    let ik = str_chars("item");
    let item = json_get_opt(json_get(message, pk.as_slice()), ik.as_slice());
    let tk = str_chars("type");
    match json_str_field(item, tk.as_slice()) {
        Some(t) => {
            if !lit_eq(t.as_slice(), "agentMessage") {
                return None;
            }
        },
        None => {
            return None;
        },
    }
    let xk = str_chars("text");
    let text = match json_str_field(item, xk.as_slice()) {
        Some(t) => t,
        None => {
            return None;
        },
    };
    let phk = str_chars("phase");
    let is_final = match json_str_field(item, phk.as_slice()) {
        Some(ph) => lit_eq(ph.as_slice(), "final_answer"),
        None => false,
    };
    Some((chars_to_string(text.as_slice()), is_final))
}

/// What to do with a message that arrives while a turn runs.
pub enum TurnStep {
    /// The turn completed with this result.
    Finished(CodexRemoteRunResult),
    /// Codex asked something that wecode declines: send this response.
    Respond(JsonValue),
    /// Codex asks for an approval that the chat user answers: the message
    /// is the request.
    AskUser,
    /// Keep reading.
    Continue,
}

/// Handles one message of a running turn in thread `thread_id`: a
/// `turn/completed` for the thread ends it (its own answer, else what the
/// notifications gave, else empty); approval requests of a supported kind
/// go to the chat user, other requests from Codex are declined; other
/// messages are notifications.
pub fn turn_step(state: &mut RemoteTurnState, thread_id: &str, message: &JsonValue) -> (r: TurnStep)
    ensures
        jstr(jget(message@, "method"@)) == Some("turn/completed"@) ==> same_turn_view(
            final(state)@,
            old(state)@,
        ),
        jstr(jget(message@, "method"@)) == Some("turn/completed"@) ==> {
            let params = match jget(message@, "params"@) {
                Some(p) => p,
                None => Json::Null,
            };
            let completed = jstr(jget(params, "threadId"@));
            if completed is None || completed == Some(thread_id@) {
                r matches TurnStep::Finished(res) && res.thread_id@ == thread_id@
                    && res.final_message@ == match final_message_of(jget(params, "turn"@)) {
                    Some(m) => m,
                    None => match turn_final(old(state)@) {
                        Some(m) => m,
                        None => Seq::empty(),
                    },
                }
            } else {
                r is Continue
            }
        },
        jstr(jget(message@, "method"@)) != Some("turn/completed"@) && is_server_request(message@)
            ==> same_turn_view(final(state)@, old(state)@) && if jstr(jget(message@, "method"@)) matches Some(m)
            && crate::native_approval::supported_method(m) {
            r is AskUser
        } else {
            r matches TurnStep::Respond(v) && Some(v@) == decline_response(message@)
        },
        jstr(jget(message@, "method"@)) != Some("turn/completed"@) && !is_server_request(message@)
            ==> r is Continue && same_turn_view(final(state)@, observe(old(state)@, message@)),
{
    let mk = str_chars("method");
    let method = json_str_field(Some(message), mk.as_slice());
    let completed = match &method {
        Some(m) => lit_eq(m.as_slice(), "turn/completed"),
        None => false,
    };
    if completed {
        let pk = str_chars("params");
        let null = JsonValue::Null;
        let params: &JsonValue = match json_get(message, pk.as_slice()) {
            Some(p) => p,
            None => &null,
        };
        let tk = str_chars("threadId");
        let done = match json_str_field(Some(params), tk.as_slice()) {
            None => true,
            Some(t) => {
                let want = str_chars(thread_id);
                eq_slices(t.as_slice(), want.as_slice())
            },
        };
        if done {
            let turnk = str_chars("turn");
            let message_text = match extract_final_message(json_get(params, turnk.as_slice())) {
                Some(m) => m,
                None => match state.final_message() {
                    Some(m) => m,
                    None => String::new(),
                },
            };
            return TurnStep::Finished(
                CodexRemoteRunResult { thread_id: thread_id.to_owned(), final_message: message_text },
            );
        }
        return TurnStep::Continue;
    }
    let ik = str_chars("id");
    if json_get(message, ik.as_slice()).is_some() && json_get(message, mk.as_slice()).is_some() {
        let asks_user = match &method {
            Some(m) => crate::native_approval::is_supported_approval_method(chars_to_string(m.as_slice()).as_str()),
            None => false,
        };
        if asks_user {
            return TurnStep::AskUser;
        }
        match decline_server_request(message) {
            Some(v) => TurnStep::Respond(v),
            None => TurnStep::Continue,
        }
    } else {
        state.observe_notification(message);
        TurnStep::Continue
    }
}

/// The proxy commands tried are never repeated and never blank.
pub proof fn law_proxy_commands_distinct(c: WecodeConfig)
    ensures
        forall|i: int, j: int|
            0 <= i < j < proxy_commands(c).len() ==> proxy_commands(c)[i] != proxy_commands(c)[j],
        forall|i: int| 0 <= i < proxy_commands(c).len() ==> (#[trigger] proxy_commands(c)[i]).len() > 0,
{
    let cmds = proxy_commands(c);
    let primary = trim(c.codex.remote.proxy_command@);
    let fallback = trim(c.codex.remote.fallback_proxy_command@);
    if primary.len() > 0 && fallback.len() > 0 && primary != fallback {
        assert(!seq![primary].contains(fallback));
    }
    if primary.len() > 0 && fallback == primary {
        assert(seq![primary].contains(fallback)) by {
            assert(seq![primary][0] == fallback);
        }
    }
}

/// Whether a prompt goes to the app-server first: only when the channel
/// reads JSONL and the transport is not `exec`.
pub fn uses_remote(transport: CodexTransport, jsonl: bool) -> (r: bool)
    ensures
        r == (jsonl && !(transport is Exec)),
{
    jsonl && match transport {
        CodexTransport::Exec => false,
        _ => true,
    }
}

/// Whether a failed remote turn is run again with `codex exec`: only under
/// the `remote` transport (`remote-strict` reports the failure).
pub fn falls_back_to_exec(transport: CodexTransport) -> (r: bool)
    ensures
        r == (transport is Remote),
{
    match transport {
        CodexTransport::Remote => true,
        _ => false,
    }
}

/// The error of a remote turn that no proxy could run, from what each
/// attempt reported.
pub fn remote_unavailable_message(errors: &Vec<String>) -> (r: String)
    ensures
        r@ == "Codex remote app-server is unavailable: "@ + crate::text::join(strings_view(errors@), "; "@),
{
    let ghost ev = strings_view(errors@);
    let mut ws: Vec<Vec<char>> = Vec::new();
    let mut i: usize = 0;
    while i < errors.len()
        invariant
            i <= errors.len(),
            ev == strings_view(errors@),
            crate::text::words_view(ws@) == ev.take(i as int),
        decreases errors.len() - i,
    {
        let w = str_chars(errors[i].as_str());
        let ghost before = crate::text::words_view(ws@);
        ws.push(w);
        assert(crate::text::words_view(ws@) =~= before.push(ev[i as int]));
        assert(ev.take(i + 1) =~= ev.take(i as int).push(ev[i as int]));
        i += 1;
    }
    assert(ev.take(errors.len() as int) =~= ev);
    let joined = crate::text::join_chars(ws.as_slice(), "; ");
    let head = str_chars("Codex remote app-server is unavailable: ");
    chars_to_string(concat2(head.as_slice(), joined.as_slice()).as_slice())
}

/// Whether a failed start of the remote-control daemon still lets the
/// command go on: under the `remote` transport, or when a fallback proxy is
/// configured, the app-server can still be reached on demand.
pub fn daemon_failure_tolerated(config: &WecodeConfig) -> (r: bool)
    ensures
        r == (config.codex.transport is Remote || trim(config.codex.remote.fallback_proxy_command@).len() > 0),
{
    let f = str_chars(config.codex.remote.fallback_proxy_command.as_str());
    falls_back_to_exec(config.codex.transport) || trim_slice(f.as_slice()).len() > 0
}

// ---------------------------------------------------------------------------
// Running a prompt: app-server first, then `codex exec`
// ---------------------------------------------------------------------------

/// What last happened while a prompt runs.
pub enum PromptRunEvent {
    /// The prompt is about to run.
    Start,
    /// A remote turn finished; its answer was written to the channel.
    RemoteFinished,
    /// No proxy could run the remote turn; the error says why.
    RemoteFailed(String),
    /// A `codex exec` run ended, successfully or not, with this stderr.
    ExecFinished { success: bool, stderr: String },
}

/// What to do next.
#[derive(Debug, PartialEq, Eq)]
pub enum PromptRunAction {
    /// Run the turn over the app-server proxies.
    RunRemote,
    /// Run `codex exec`, resuming this Codex thread when there is one.
    RunExec { resume: Option<String> },
    /// `codex exec` succeeded: pass its final message on.
    PrintFinal,
    /// The remote turn finished; nothing more to do.
    Done,
    /// The prompt failed with this error.
    Fail(String),
}

pub enum PromptRunEventView {
    Start,
    RemoteFinished,
    RemoteFailed(Seq<char>),
    ExecFinished(bool, Seq<char>),
}

pub enum PromptRunActionView {
    RunRemote,
    RunExec(Option<Seq<char>>),
    PrintFinal,
    Done,
    Fail(Seq<char>),
}

impl View for PromptRunEvent {
    type V = PromptRunEventView;

    open spec fn view(&self) -> PromptRunEventView {
        match self {
            PromptRunEvent::Start => PromptRunEventView::Start,
            PromptRunEvent::RemoteFinished => PromptRunEventView::RemoteFinished,
            PromptRunEvent::RemoteFailed(e) => PromptRunEventView::RemoteFailed(e@),
            PromptRunEvent::ExecFinished { success, stderr } => PromptRunEventView::ExecFinished(
                *success,
                stderr@,
            ),
        }
    }
}

impl View for PromptRunAction {
    type V = PromptRunActionView;

    open spec fn view(&self) -> PromptRunActionView {
        match self {
            PromptRunAction::RunRemote => PromptRunActionView::RunRemote,
            PromptRunAction::RunExec { resume } => PromptRunActionView::RunExec(opt_string(*resume)),
            PromptRunAction::PrintFinal => PromptRunActionView::PrintFinal,
            PromptRunAction::Done => PromptRunActionView::Done,
            PromptRunAction::Fail(e) => PromptRunActionView::Fail(e@),
        }
    }
}

/// Codex could not find the thread to resume on this machine.
pub open spec fn rollout_missing(stderr: Seq<char>) -> bool {
    crate::text::contains(stderr, "thread/resume"@) && crate::text::contains(
        stderr,
        "no rollout found for thread id"@,
    )
}

/// The next step of a prompt run.  A prompt goes to the app-server first
/// when the channel reads JSONL and the transport is not `exec`; a failed
/// remote turn is run again with `codex exec` only under the `remote`
/// transport (`remote-strict` reports the error); a resumed `codex exec`
/// whose thread is missing locally is run once more on a fresh thread
/// (`resumed_exec` says whether the run that finished resumed a thread).
pub open spec fn prompt_run_action(
    transport: CodexTransport,
    jsonl: bool,
    resume: Option<Seq<char>>,
    resumed_exec: bool,
    event: PromptRunEventView,
) -> PromptRunActionView {
    match event {
        PromptRunEventView::Start => if jsonl && !(transport is Exec) {
            PromptRunActionView::RunRemote
        } else {
            PromptRunActionView::RunExec(resume)
        },
        PromptRunEventView::RemoteFinished => PromptRunActionView::Done,
        PromptRunEventView::RemoteFailed(e) => if transport is Remote {
            PromptRunActionView::RunExec(resume)
        } else {
            PromptRunActionView::Fail(e)
        },
        PromptRunEventView::ExecFinished(success, stderr) => if success {
            PromptRunActionView::PrintFinal
        } else if resumed_exec && rollout_missing(stderr) {
            PromptRunActionView::RunExec(None)
        } else {
            PromptRunActionView::Fail("codex exec failed"@)
        },
    }
}

pub fn next_prompt_run_action(
    transport: CodexTransport,
    jsonl: bool,
    resume: Option<&str>,
    resumed_exec: bool,
    event: &PromptRunEvent,
) -> (a: PromptRunAction)
    ensures
        a@ == prompt_run_action(transport, jsonl, opt_str(resume), resumed_exec, event@),
{
    let resume_owned = match resume {
        Some(r) => Some(r.to_owned()),
        None => None,
    };
    match event {
        PromptRunEvent::Start => if uses_remote(transport, jsonl) {
            PromptRunAction::RunRemote
        } else {
            PromptRunAction::RunExec { resume: resume_owned }
        },
        PromptRunEvent::RemoteFinished => PromptRunAction::Done,
        PromptRunEvent::RemoteFailed(e) => if falls_back_to_exec(transport) {
            PromptRunAction::RunExec { resume: resume_owned }
        } else {
            PromptRunAction::Fail(e.clone())
        },
        PromptRunEvent::ExecFinished { success, stderr } => if *success {
            PromptRunAction::PrintFinal
        } else if resumed_exec && crate::messages::codex_resume_rollout_is_missing(stderr.as_str()) {
            PromptRunAction::RunExec { resume: None }
        } else {
            PromptRunAction::Fail("codex exec failed".to_owned())
        },
    }
}

/// Under the `remote` transport a failed remote turn is followed by
/// `codex exec` on the same thread; under `remote-strict` its error is the
/// prompt's error.
pub proof fn law_remote_failure_falls_back_only_under_remote(
    jsonl: bool,
    resume: Option<Seq<char>>,
    resumed_exec: bool,
    error: Seq<char>,
)
    ensures
        prompt_run_action(
            CodexTransport::Remote,
            jsonl,
            resume,
            resumed_exec,
            PromptRunEventView::RemoteFailed(error),
        ) == PromptRunActionView::RunExec(resume),
        prompt_run_action(
            CodexTransport::RemoteStrict,
            jsonl,
            resume,
            resumed_exec,
            PromptRunEventView::RemoteFailed(error),
        ) == PromptRunActionView::Fail(error),
{
}

/// The app-server is tried first exactly when the channel reads JSONL and
/// the transport is not `exec`; otherwise the prompt goes straight to
/// `codex exec` on the requested thread.
pub proof fn law_prompt_prefers_remote(
    transport: CodexTransport,
    jsonl: bool,
    resume: Option<Seq<char>>,
    resumed_exec: bool,
)
    ensures
        (prompt_run_action(transport, jsonl, resume, resumed_exec, PromptRunEventView::Start)
            == PromptRunActionView::RunRemote) <==> (jsonl && !(transport is Exec)),
        !(jsonl && !(transport is Exec)) ==> prompt_run_action(
            transport,
            jsonl,
            resume,
            resumed_exec,
            PromptRunEventView::Start,
        ) == PromptRunActionView::RunExec(resume),
{
}

/// A fresh `codex exec` is tried at most once: after a run that resumed no
/// thread, a failure is final.
pub proof fn law_fresh_exec_failure_is_final(
    transport: CodexTransport,
    jsonl: bool,
    resume: Option<Seq<char>>,
    stderr: Seq<char>,
)
    ensures
        prompt_run_action(
            transport,
            jsonl,
            resume,
            false,
            PromptRunEventView::ExecFinished(false, stderr),
        ) == PromptRunActionView::Fail("codex exec failed"@),
{
}

/// Which proxy to try next: the proxies are tried in order, each once, and
/// the first that runs the turn wins; `None` once all have failed.
pub fn next_proxy_attempt(commands: &Vec<String>, failures: usize) -> (r: Option<usize>)
    ensures
        r == (if failures < commands.len() {
            Some(failures)
        } else {
            None::<usize>
        }),
{
    if failures < commands.len() {
        Some(failures)
    } else {
        None
    }
}

/// What each failed attempt of a remote turn reports: the daemon's start,
/// a missing proxy configuration, then each proxy with its error.
pub open spec fn remote_attempt_errors(
    daemon_error: Option<Seq<char>>,
    commands: Seq<Seq<char>>,
    proxy_errors: Seq<Seq<char>>,
) -> Seq<Seq<char>> {
    (match daemon_error {
        Some(e) => seq!["daemon start: "@ + e],
        None => Seq::empty(),
    }) + (if commands.len() == 0 {
        seq!["no Codex remote proxy command configured"@]
    } else {
        Seq::empty()
    }) + Seq::new(
        commands.len(),
        |i: int| "proxy `"@ + commands[i] + "`: "@ + proxy_errors[i],
    )
}

/// The error of a remote turn that no proxy could run (every proxy failed,
/// with the error at the same position).
pub fn remote_turn_error(
    daemon_error: Option<&str>,
    commands: &Vec<String>,
    proxy_errors: &Vec<String>,
) -> (r: String)
    requires
        proxy_errors.len() == commands.len(),
    ensures
        r@ == "Codex remote app-server is unavailable: "@ + crate::text::join(
            remote_attempt_errors(opt_str(daemon_error), strings_view(commands@), strings_view(proxy_errors@)),
            "; "@,
        ),
{
    let ghost cv = strings_view(commands@);
    let ghost ev = strings_view(proxy_errors@);
    let mut errors: Vec<String> = Vec::new();
    match daemon_error {
        Some(e) => {
            let ec = str_chars(e);
            errors.push(chars_to_string(crate::text::lit_then("daemon start: ", ec.as_slice()).as_slice()));
        },
        None => {},
    }
    if commands.len() == 0 {
        errors.push("no Codex remote proxy command configured".to_owned());
    }
    let ghost head = strings_view(errors@);
    assert(head =~= (match opt_str(daemon_error) {
        Some(e) => seq!["daemon start: "@ + e],
        None => Seq::<Seq<char>>::empty(),
    }) + (if cv.len() == 0 {
        seq!["no Codex remote proxy command configured"@]
    } else {
        Seq::<Seq<char>>::empty()
    }));
    let ghost tail = Seq::new(cv.len(), |i: int| "proxy `"@ + cv[i] + "`: "@ + ev[i]);
    let mut i: usize = 0;
    while i < commands.len()
        invariant
            i <= commands.len(),
            proxy_errors.len() == commands.len(),
            cv == strings_view(commands@),
            ev == strings_view(proxy_errors@),
            tail == Seq::new(cv.len(), |i: int| "proxy `"@ + cv[i] + "`: "@ + ev[i]),
            strings_view(errors@) == head + tail.take(i as int),
        decreases commands.len() - i,
    {
        let c = str_chars(commands[i].as_str());
        let e = str_chars(proxy_errors[i].as_str());
        let a = crate::text::with_lit(crate::text::lit_then("proxy `", c.as_slice()).as_slice(), "`: ");
        let line = concat2(a.as_slice(), e.as_slice());
        let ghost before = strings_view(errors@);
        errors.push(chars_to_string(line.as_slice()));
        proof {
            assert(line@ == tail[i as int]);
            assert(strings_view(errors@) =~= before.push(tail[i as int]));
            assert(tail.take(i + 1) =~= tail.take(i as int).push(tail[i as int]));
        }
        i += 1;
    }
    assert(tail.take(commands.len() as int) =~= tail);
    remote_unavailable_message(&errors)
}

// ---------------------------------------------------------------------------
// The answer of a turn
// ---------------------------------------------------------------------------

/// The answer that `turn/start`'s response already carries, when the turn
/// completed at once.
pub fn turn_start_answer(response: &JsonValue) -> (r: Option<String>)
    ensures
        opt_string(r) == final_message_of(jget(response@, "turn"@)),
{
    let tk = str_chars("turn");
    extract_final_message(json_get(response, tk.as_slice()))
}

/// The result of a finished turn, given the `turn/completed` message that
/// ended it and whether the chat user denied an approval during the turn:
/// after a denial the answer is the turn's last final answer, else the
/// denial notice; otherwise the result stands.
pub fn finished_turn_result(result: CodexRemoteRunResult, completed: &JsonValue, denied: bool) -> (r:
    CodexRemoteRunResult)
    ensures
        r.thread_id@ == result.thread_id@,
        r.final_message@ == if denied {
            answer_after_denial(jget_opt(jget(completed@, "params"@), "turn"@))
        } else {
            result.final_message@
        },
{
    if denied {
        let pk = str_chars("params");
        let tk = str_chars("turn");
        let turn = json_get_opt(json_get(completed, pk.as_slice()), tk.as_slice());
        CodexRemoteRunResult { thread_id: result.thread_id, final_message: final_answer_after_denial(turn) }
    } else {
        result
    }
}

/// A line that the proxy printed, read as a JSON-RPC message: the line
/// without surrounding whitespace, parsed as JSON (`None` when it is not).
pub fn parse_rpc_line(line: &str) -> (r: Option<JsonValue>)
    ensures
        crate::json::opt_view(r) == crate::json::json_parse(trim(line@)),
{
    let c = str_chars(line);
    let t = chars_to_string(trim_slice(c.as_slice()));
    crate::json::parse_json(t.as_str())
}

} // verus!
