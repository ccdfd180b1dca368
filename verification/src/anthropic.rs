//! The protocol adapter for the Anthropic-style wire family: the messages
//! endpoint, key auth in its own header, a top-level system prompt, tool
//! calls and tool answers as typed content blocks, and a response body made
//! of typed content blocks.

use crate::auth_data::{pairs_lookup, AuthData, AuthDataError, EnvVars, Headers};
use crate::chat::{ChatMessage, ChatRequest, ChatResponse, Tool, ToolCall, ToolResponse, Usage};
use crate::client::ChatOptions;
use crate::error::Error;
use crate::json::{json_text, json_to_string, json_view, json_view_members, json_view_seq,
    lemma_json_view_members, lemma_json_view_seq, Json, JsonV};
use crate::model::{ModelIden, ServiceTarget};
use crate::text::str_eq;
use crate::wire::{clone_json, get_str, get_u32, jv_get, jv_str, jv_u32, obj_get, WireRequest};
use vstd::prelude::*;
use vstd::string::StrSliceExecFns;
use vstd::string::StringExecFns;

verus! {

/// The wire form of one tool call issued by the model: a typed content
/// block carrying the call id, the tool name, and the arguments as an
/// object.
pub open spec fn a_tool_use_json(c: ToolCall) -> JsonV {
    JsonV::Obj(
        seq![
            ("type"@, JsonV::Str("tool_use"@)),
            ("id"@, JsonV::Str(c.call_id@)),
            ("name"@, JsonV::Str(c.fn_name@)),
            ("input"@, c.fn_arguments@),
        ],
    )
}

/// The wire forms of a sequence of tool calls.
pub open spec fn a_tool_uses_json(s: Seq<ToolCall>) -> Seq<JsonV>
    decreases s,
{
    if s.len() == 0 {
        Seq::empty()
    } else {
        a_tool_uses_json(s.drop_last()).push(a_tool_use_json(s.last()))
    }
}

/// The wire form of one tool answer: a typed content block on a user turn,
/// naming the call it answers.
pub open spec fn a_tool_result_json(tr: ToolResponse) -> JsonV {
    JsonV::Obj(
        seq![
            ("type"@, JsonV::Str("tool_result"@)),
            ("tool_use_id"@, JsonV::Str(tr.call_id@)),
            ("content"@, JsonV::Str(tr.content@)),
        ],
    )
}

/// The wire form of one chat message in this family: text turns carry their
/// text, tool calls travel as assistant content blocks, and tool answers as
/// user content blocks.
pub open spec fn a_msg_json(m: ChatMessage) -> JsonV {
    match m {
        ChatMessage::User { content } => JsonV::Obj(
            seq![("role"@, JsonV::Str("user"@)), ("content"@, JsonV::Str(content@))],
        ),
        ChatMessage::Assistant { content } => JsonV::Obj(
            seq![("role"@, JsonV::Str("assistant"@)), ("content"@, JsonV::Str(content@))],
        ),
        ChatMessage::ToolCalls(calls) => JsonV::Obj(
            seq![
                ("role"@, JsonV::Str("assistant"@)),
                ("content"@, JsonV::Arr(a_tool_uses_json(calls@))),
            ],
        ),
        ChatMessage::ToolResponse(tr) => JsonV::Obj(
            seq![
                ("role"@, JsonV::Str("user"@)),
                ("content"@, JsonV::Arr(seq![a_tool_result_json(tr)])),
            ],
        ),
    }
}

/// The wire forms of a sequence of chat messages.
pub open spec fn a_msgs_json(s: Seq<ChatMessage>) -> Seq<JsonV>
    decreases s,
{
    if s.len() == 0 {
        Seq::empty()
    } else {
        a_msgs_json(s.drop_last()).push(a_msg_json(s.last()))
    }
}

/// The wire form of one tool definition: its name, its description when one
/// was given, and its schema as the input schema (an empty object when none
/// was given, since the provider requires one).
pub open spec fn a_tool_json(t: Tool) -> JsonV {
    JsonV::Obj(
        seq![("name"@, JsonV::Str(t.name@))] + (match t.description {
            Some(d) => seq![("description"@, JsonV::Str(d@))],
            None => Seq::empty(),
        }) + seq![
            (
                "input_schema"@,
                match t.schema {
                    Some(sc) => sc@,
                    None => JsonV::Obj(Seq::empty()),
                },
            ),
        ],
    )
}

/// The wire forms of a sequence of tool definitions.
pub open spec fn a_tools_json(s: Seq<Tool>) -> Seq<JsonV>
    decreases s,
{
    if s.len() == 0 {
        Seq::empty()
    } else {
        a_tools_json(s.drop_last()).push(a_tool_json(s.last()))
    }
}

/// The full Anthropic-shaped request body: the model, the token budget (the
/// provider requires one), the system prompt at top level, the turns, the
/// tool definitions when any were given, and the stream flag.
pub open spec fn spec_anthropic_body(
    req: ChatRequest,
    model_name: Seq<char>,
    max_tokens: Option<u32>,
    stream: bool,
) -> JsonV {
    JsonV::Obj(
        seq![
            ("model"@, JsonV::Str(model_name)),
            (
                "max_tokens"@,
                JsonV::Int(
                    match max_tokens {
                        Some(n) => n as int,
                        None => 1024,
                    },
                ),
            ),
        ] + (match req.system {
            Some(s) => seq![("system"@, JsonV::Str(s@))],
            None => Seq::empty(),
        }) + seq![("messages"@, JsonV::Arr(a_msgs_json(req.messages@)))] + (if req.tools@.len()
            > 0 {
            seq![("tools"@, JsonV::Arr(a_tools_json(req.tools@)))]
        } else {
            Seq::empty()
        }) + seq![("stream"@, JsonV::Bool(stream))],
    )
}

/// Builds the wire form of one tool call block.
fn build_a_tool_use(c: &ToolCall) -> (j: Json)
    ensures
        j@ == a_tool_use_json(*c),
{
    let input = clone_json(&c.fn_arguments);
    let ghost iv = json_view(input);
    let mut v: Vec<(String, Json)> = Vec::new();
    v.push((String::from_str("type"), Json::Str(String::from_str("tool_use"))));
    v.push((String::from_str("id"), Json::Str(c.call_id.clone())));
    v.push((String::from_str("name"), Json::Str(c.fn_name.clone())));
    v.push((String::from_str("input"), input));
    let j = Json::Obj(v);
    proof {
        lemma_json_view_members(j->Obj_0@);
        assert(json_view_members(j->Obj_0@) =~= seq![
            ("type"@, JsonV::Str("tool_use"@)),
            ("id"@, JsonV::Str(c.call_id@)),
            ("name"@, JsonV::Str(c.fn_name@)),
            ("input"@, iv),
        ]);
    }
    j
}

/// Builds the wire form of one tool answer block.
fn build_a_tool_result(tr: &ToolResponse) -> (j: Json)
    ensures
        j@ == a_tool_result_json(*tr),
{
    let mut v: Vec<(String, Json)> = Vec::new();
    v.push((String::from_str("type"), Json::Str(String::from_str("tool_result"))));
    v.push((String::from_str("tool_use_id"), Json::Str(tr.call_id.clone())));
    v.push((String::from_str("content"), Json::Str(tr.content.clone())));
    let j = Json::Obj(v);
    proof {
        lemma_json_view_members(j->Obj_0@);
        assert(json_view_members(j->Obj_0@) =~= seq![
            ("type"@, JsonV::Str("tool_result"@)),
            ("tool_use_id"@, JsonV::Str(tr.call_id@)),
            ("content"@, JsonV::Str(tr.content@)),
        ]);
    }
    j
}

/// Builds the wire form of one chat message of this family.
fn build_a_msg(m: &ChatMessage) -> (j: Json)
    ensures
        j@ == a_msg_json(*m),
{
    match m {
        ChatMessage::User { content } => {
            let mut v: Vec<(String, Json)> = Vec::new();
            v.push((String::from_str("role"), Json::Str(String::from_str("user"))));
            v.push((String::from_str("content"), Json::Str(content.clone())));
            let j = Json::Obj(v);
            proof {
                lemma_json_view_members(j->Obj_0@);
                assert(json_view_members(j->Obj_0@) =~= seq![
                    ("role"@, JsonV::Str("user"@)),
                    ("content"@, JsonV::Str(content@)),
                ]);
            }
            j
        },
        ChatMessage::Assistant { content } => {
            let mut v: Vec<(String, Json)> = Vec::new();
            v.push((String::from_str("role"), Json::Str(String::from_str("assistant"))));
            v.push((String::from_str("content"), Json::Str(content.clone())));
            let j = Json::Obj(v);
            proof {
                lemma_json_view_members(j->Obj_0@);
                assert(json_view_members(j->Obj_0@) =~= seq![
                    ("role"@, JsonV::Str("assistant"@)),
                    ("content"@, JsonV::Str(content@)),
                ]);
            }
            j
        },
        ChatMessage::ToolCalls(calls) => {
            let mut arr: Vec<Json> = Vec::new();
            let n = calls.len();
            proof {
                assert(calls@.take(0) =~= Seq::<ToolCall>::empty());
                assert(json_view_seq(arr@) =~= a_tool_uses_json(calls@.take(0)));
            }
            for i in 0..n
                invariant
                    n == calls@.len(),
                    json_view_seq(arr@) == a_tool_uses_json(calls@.take(i as int)),
            {
                let tu = build_a_tool_use(&calls[i]);
                let ghost asnap = arr@;
                arr.push(tu);
                proof {
                    assert(arr@.drop_last() =~= asnap);
                    assert(calls@.take(i + 1).drop_last() =~= calls@.take(i as int));
                    assert(calls@.take(i + 1).last() == calls@[i as int]);
                    assert(json_view_seq(arr@) =~= a_tool_uses_json(calls@.take(i + 1)));
                }
            }
            proof {
                assert(calls@.take(n as int) =~= calls@);
            }
            let mut v: Vec<(String, Json)> = Vec::new();
            v.push((String::from_str("role"), Json::Str(String::from_str("assistant"))));
            let blocks = Json::Arr(arr);
            let ghost bv = json_view(blocks);
            v.push((String::from_str("content"), blocks));
            let j = Json::Obj(v);
            proof {
                lemma_json_view_members(j->Obj_0@);
                assert(json_view_members(j->Obj_0@) =~= seq![
                    ("role"@, JsonV::Str("assistant"@)),
                    ("content"@, bv),
                ]);
            }
            j
        },
        ChatMessage::ToolResponse(tr) => {
            let block = build_a_tool_result(tr);
            let ghost bkv = json_view(block);
            let mut arr: Vec<Json> = Vec::new();
            arr.push(block);
            proof {
                assert(arr@.drop_last() =~= Seq::<Json>::empty());
                assert(json_view_seq(Seq::<Json>::empty()) =~= Seq::<JsonV>::empty());
                assert(json_view_seq(arr@) =~= seq![bkv]);
            }
            let mut v: Vec<(String, Json)> = Vec::new();
            v.push((String::from_str("role"), Json::Str(String::from_str("user"))));
            let blocks = Json::Arr(arr);
            let ghost bv = json_view(blocks);
            v.push((String::from_str("content"), blocks));
            let j = Json::Obj(v);
            proof {
                lemma_json_view_members(j->Obj_0@);
                assert(bv == JsonV::Arr(seq![a_tool_result_json(*tr)]));
                assert(json_view_members(j->Obj_0@) =~= seq![
                    ("role"@, JsonV::Str("user"@)),
                    ("content"@, bv),
                ]);
            }
            j
        },
    }
}

/// Builds the wire form of one tool definition.
fn build_a_tool(t: &Tool) -> (j: Json)
    ensures
        j@ == a_tool_json(*t),
{
    let mut v: Vec<(String, Json)> = Vec::new();
    v.push((String::from_str("name"), Json::Str(t.name.clone())));
    match &t.description {
        Some(d) => {
            v.push((String::from_str("description"), Json::Str(d.clone())));
        },
        None => {},
    }
    let schema = match &t.schema {
        Some(sc) => clone_json(sc),
        None => Json::Obj(Vec::new()),
    };
    let ghost sv = json_view(schema);
    v.push((String::from_str("input_schema"), schema));
    let j = Json::Obj(v);
    proof {
        if t.schema is None {
            assert(json_view_members(Seq::<(String, Json)>::empty())
                =~= Seq::<(Seq<char>, JsonV)>::empty());
            assert(sv == JsonV::Obj(Seq::<(Seq<char>, JsonV)>::empty()));
        }
        lemma_json_view_members(j->Obj_0@);
        assert(json_view_members(j->Obj_0@) =~= seq![("name"@, JsonV::Str(t.name@))] + (
        match t.description {
            Some(d) => seq![("description"@, JsonV::Str(d@))],
            None => Seq::<(Seq<char>, JsonV)>::empty(),
        }) + seq![("input_schema"@, sv)]);
    }
    j
}

/// Builds the full Anthropic-shaped request body.
fn build_a_body(req: &ChatRequest, model_name: &str, max_tokens: Option<u32>, stream: bool) -> (j:
    Json)
    ensures
        j@ == spec_anthropic_body(*req, model_name@, max_tokens, stream),
{
    let mut msgs: Vec<Json> = Vec::new();
    let n = req.messages.len();
    proof {
        assert(req.messages@.take(0) =~= Seq::<ChatMessage>::empty());
        assert(json_view_seq(msgs@) =~= a_msgs_json(req.messages@.take(0)));
    }
    for i in 0..n
        invariant
            n == req.messages@.len(),
            json_view_seq(msgs@) == a_msgs_json(req.messages@.take(i as int)),
    {
        let mj = build_a_msg(&req.messages[i]);
        let ghost msnap = msgs@;
        msgs.push(mj);
        proof {
            assert(msgs@.drop_last() =~= msnap);
            assert(req.messages@.take(i + 1).drop_last() =~= req.messages@.take(i as int));
            assert(req.messages@.take(i + 1).last() == req.messages@[i as int]);
            assert(json_view_seq(msgs@) =~= a_msgs_json(req.messages@.take(i + 1)));
        }
    }
    proof {
        assert(req.messages@.take(n as int) =~= req.messages@);
    }
    let mut tools: Vec<Json> = Vec::new();
    let tn = req.tools.len();
    proof {
        assert(req.tools@.take(0) =~= Seq::<Tool>::empty());
        assert(json_view_seq(tools@) =~= a_tools_json(req.tools@.take(0)));
    }
    for i in 0..tn
        invariant
            tn == req.tools@.len(),
            json_view_seq(tools@) == a_tools_json(req.tools@.take(i as int)),
    {
        let tj = build_a_tool(&req.tools[i]);
        let ghost tsnap = tools@;
        tools.push(tj);
        proof {
            assert(tools@.drop_last() =~= tsnap);
            assert(req.tools@.take(i + 1).drop_last() =~= req.tools@.take(i as int));
            assert(req.tools@.take(i + 1).last() == req.tools@[i as int]);
            assert(json_view_seq(tools@) =~= a_tools_json(req.tools@.take(i + 1)));
        }
    }
    proof {
        assert(req.tools@.take(tn as int) =~= req.tools@);
    }
    let has_tools = req.tools.len() > 0;
    let budget: i64 = match max_tokens {
        Some(mt) => mt as i64,
        None => 1024,
    };
    let mut members: Vec<(String, Json)> = Vec::new();
    members.push((String::from_str("model"), Json::Str(model_name.to_owned())));
    members.push((String::from_str("max_tokens"), Json::Int(budget)));
    match &req.system {
        Some(s) => {
            members.push((String::from_str("system"), Json::Str(s.clone())));
        },
        None => {},
    }
    let marr = Json::Arr(msgs);
    let ghost mav = json_view(marr);
    members.push((String::from_str("messages"), marr));
    if has_tools {
        let tarr = Json::Arr(tools);
        proof {
            assert(json_view(tarr) == JsonV::Arr(a_tools_json(req.tools@)));
        }
        members.push((String::from_str("tools"), tarr));
    }
    members.push((String::from_str("stream"), Json::Bool(stream)));
    let j = Json::Obj(members);
    proof {
        lemma_json_view_members(j->Obj_0@);
        assert(mav == JsonV::Arr(a_msgs_json(req.messages@)));
        assert(json_view_members(j->Obj_0@) =~= seq![
            ("model"@, JsonV::Str(model_name@)),
            (
                "max_tokens"@,
                JsonV::Int(
                    match max_tokens {
                        Some(n) => n as int,
                        None => 1024,
                    },
                ),
            ),
        ] + (match req.system {
            Some(s) => seq![("system"@, JsonV::Str(s@))],
            None => Seq::<(Seq<char>, JsonV)>::empty(),
        }) + seq![("messages"@, JsonV::Arr(a_msgs_json(req.messages@)))] + (if req.tools@.len()
            > 0 {
            seq![("tools"@, JsonV::Arr(a_tools_json(req.tools@)))]
        } else {
            Seq::<(Seq<char>, JsonV)>::empty()
        }) + seq![("stream"@, JsonV::Bool(stream))]);
    }
    j
}

/// The messages URL under a base endpoint.
pub open spec fn spec_messages_url(endpoint: Seq<char>) -> Seq<char> {
    endpoint + "v1/messages"@
}

/// A prepared request against the messages URL with the key in the
/// provider's own header and its protocol version pinned.
pub open spec fn a_wire_ok(
    r: Result<WireRequest, Error>,
    url: Seq<char>,
    key: Seq<char>,
    body: Seq<char>,
) -> bool {
    r matches Ok(w) && w.url@ == url && w.body@ == body && w.headers.items@.len() == 3
        && w.headers.items@[0].0@ == "x-api-key"@ && w.headers.items@[0].1@ == key
        && w.headers.items@[1].0@ == "anthropic-version"@ && w.headers.items@[1].1@
        == "2023-06-01"@ && w.headers.items@[2].0@ == "Content-Type"@ && w.headers.items@[2].1@
        == "application/json"@
}

/// Translates the uniform chat request into this family's wire request,
/// resolving auth against the given environment snapshot.
///
/// A request override supplies its own URL and headers; an environment
/// reference or a literal key goes into the provider's key header on the
/// messages URL; any other auth form fails as an auth error, naming the
/// variable where one was named.
pub fn build_anthropic_request(
    target: &ServiceTarget,
    req: &ChatRequest,
    options: Option<&ChatOptions>,
    env: &EnvVars,
    stream: bool,
) -> (r: Result<WireRequest, Error>)
    ensures
        ({
            let mt = match options {
                Some(o) => o.max_tokens,
                None => None,
            };
            let body = json_text(
                spec_anthropic_body(*req, target.model.model_name@, mt, stream),
            );
            match target.auth {
                AuthData::RequestOverride { url, headers } => r matches Ok(w) && w.url@ == url@
                    && w.headers.items@ == headers.items@ && w.body@ == body,
                AuthData::FromEnv(n) => match pairs_lookup(env.entries@, n@) {
                    Some(k) => a_wire_ok(r, spec_messages_url(target.endpoint@), k, body),
                    None => r matches Err(
                        Error::Auth(AuthDataError::ApiKeyEnvNotFound { env_name }),
                    ) && env_name@ == n@,
                },
                AuthData::Key(v) => a_wire_ok(r, spec_messages_url(target.endpoint@), v@, body),
                AuthData::NoAuth => r matches Err(
                    Error::Auth(AuthDataError::AuthDataNotSingleValue),
                ),
                AuthData::MultiKeys(_) => r matches Err(
                    Error::Auth(AuthDataError::AuthDataNotSingleValue),
                ),
            }
        }),
{
    let max_tokens = match options {
        Some(o) => o.max_tokens,
        None => None,
    };
    let body_json = build_a_body(req, target.model.model_name.as_str(), max_tokens, stream);
    let body = json_to_string(&body_json);
    match &target.auth {
        AuthData::RequestOverride { url, headers } => Ok(
            WireRequest { url: url.clone(), headers: crate::wire::clone_headers(headers), body },
        ),
        AuthData::FromEnv(n) => match env.lookup(n.as_str()) {
            Some(key) => Ok(keyed_request(target, key, body)),
            None => Err(
                Error::Auth(AuthDataError::ApiKeyEnvNotFound { env_name: n.clone() }),
            ),
        },
        AuthData::Key(v) => Ok(keyed_request(target, v.clone(), body)),
        AuthData::NoAuth => Err(Error::Auth(AuthDataError::AuthDataNotSingleValue)),
        AuthData::MultiKeys(_) => Err(Error::Auth(AuthDataError::AuthDataNotSingleValue)),
    }
}

/// Assembles the messages URL and the key headers around a body.
fn keyed_request(target: &ServiceTarget, key: String, body: String) -> (w: WireRequest)
    ensures
        w.url@ == spec_messages_url(target.endpoint@),
        w.headers.items@.len() == 3,
        w.headers.items@[0].0@ == "x-api-key"@,
        w.headers.items@[0].1@ == key@,
        w.headers.items@[1].0@ == "anthropic-version"@,
        w.headers.items@[1].1@ == "2023-06-01"@,
        w.headers.items@[2].0@ == "Content-Type"@,
        w.headers.items@[2].1@ == "application/json"@,
        w.body == body,
{
    let mut url = target.endpoint.base_url().to_owned();
    url.append("v1/messages");
    let mut headers = Headers::new();
    headers.push(String::from_str("x-api-key"), key);
    headers.push(String::from_str("anthropic-version"), String::from_str("2023-06-01"));
    headers.push(String::from_str("Content-Type"), String::from_str("application/json"));
    WireRequest { url, headers, body }
}

/// The content blocks of an Anthropic-shaped response.
pub open spec fn a_blocks(j: JsonV) -> Seq<JsonV> {
    match jv_get(j, "content"@) {
        Some(JsonV::Arr(a)) => a,
        _ => Seq::empty(),
    }
}

/// The kind tag of one content block.
pub open spec fn a_block_type(b: JsonV) -> Option<Seq<char>> {
    jv_str(jv_get(b, "type"@))
}

/// A tool-call block is understood when it carries a call id and a tool
/// name; a missing input counts as an empty object.
pub open spec fn a_tu_ok(b: JsonV) -> bool {
    jv_str(jv_get(b, "id"@)) is Some && jv_str(jv_get(b, "name"@)) is Some
}

/// What one understood tool-call block translates to: its id, its name, and
/// its input.
pub open spec fn a_tu_view(b: JsonV) -> (Seq<char>, Seq<char>, JsonV) {
    (
        jv_str(jv_get(b, "id"@))->0,
        jv_str(jv_get(b, "name"@))->0,
        match jv_get(b, "input"@) {
            Some(v) => v,
            None => JsonV::Obj(Seq::empty()),
        },
    )
}

/// A response is understood when it carries a content array and each of its
/// tool-call blocks is understood.
pub open spec fn a_response_ok(j: JsonV) -> bool {
    (jv_get(j, "content"@) matches Some(b) && b is Arr) && (forall|k: int|
        0 <= k < a_blocks(j).len() && a_block_type(#[trigger] a_blocks(j)[k]) == Some("tool_use"@)
            ==> a_tu_ok(a_blocks(j)[k]))
}

/// The texts of the text blocks, in order.
pub open spec fn a_texts(s: Seq<JsonV>) -> Seq<Seq<char>>
    decreases s,
{
    if s.len() == 0 {
        Seq::empty()
    } else {
        let prev = a_texts(s.drop_last());
        if a_block_type(s.last()) == Some("text"@) && jv_str(
            jv_get(s.last(), "text"@),
        ) is Some {
            prev.push(jv_str(jv_get(s.last(), "text"@))->0)
        } else {
            prev
        }
    }
}

/// The tool-call blocks, in order.
pub open spec fn a_tu_blocks(s: Seq<JsonV>) -> Seq<JsonV>
    decreases s,
{
    if s.len() == 0 {
        Seq::empty()
    } else {
        let prev = a_tu_blocks(s.drop_last());
        if a_block_type(s.last()) == Some("tool_use"@) {
            prev.push(s.last())
        } else {
            prev
        }
    }
}

/// The usage an Anthropic-shaped body reports: input and output token
/// counts.
pub open spec fn a_usage(j: JsonV) -> Usage {
    match jv_get(j, "usage"@) {
        Some(u) => Usage {
            prompt_tokens: jv_u32(jv_get(u, "input_tokens"@)),
            completion_tokens: jv_u32(jv_get(u, "output_tokens"@)),
            total_tokens: None,
        },
        None => Usage { prompt_tokens: None, completion_tokens: None, total_tokens: None },
    }
}

/// Parses a complete non-streaming Anthropic-shaped response body into the
/// uniform shape: every text block becomes one content segment, every
/// tool-call block becomes one issued tool call, and the input and output
/// token counts become the usage. A body without a content array, or with a
/// tool-call block the adapter cannot read, is a protocol-parse failure,
/// never an empty response.
pub fn parse_anthropic_response(body: &str, model: ModelIden) -> (r: Result<ChatResponse, Error>)
    ensures
        match crate::wire::parsed_json(body@) {
            Some(j) => {
                &&& r is Ok <==> a_response_ok(j@)
                &&& (r is Err ==> (r matches Err(Error::ProtocolParse { .. })))
                &&& r matches Ok(res) ==> {
                    &&& res.model_iden == model
                    &&& res.usage == a_usage(j@)
                    &&& res.content@.map_values(|s: String| s@) == a_texts(a_blocks(j@))
                    &&& res.reasoning_content is None
                    &&& res.tool_calls@.len() == a_tu_blocks(a_blocks(j@)).len()
                    &&& forall|k: int|
                        0 <= k < res.tool_calls@.len() ==> (
                        #[trigger] res.tool_calls@[k].call_id@,
                        res.tool_calls@[k].fn_name@,
                        res.tool_calls@[k].fn_arguments@,
                    ) == a_tu_view(a_tu_blocks(a_blocks(j@))[k])
                }
            },
            None => r matches Err(Error::ProtocolParse { .. }),
        },
{
    let parsed = crate::wire::parse_json(body);
    match parsed {
        None => Err(
            Error::ProtocolParse { message: String::from_str("response body is not JSON") },
        ),
        Some(j) => {
            let blocks = match obj_get(&j, "content") {
                Some(c) => match c {
                    Json::Arr(a) => Some(a),
                    _ => None,
                },
                None => None,
            };
            match blocks {
                None => Err(
                    Error::ProtocolParse {
                        message: String::from_str("response carries no content array"),
                    },
                ),
                Some(a) => {
                    proof {
                        lemma_json_view_seq(a@);
                        assert(a_blocks(j@) == json_view_seq(a@));
                    }
                    let mut content: Vec<String> = Vec::new();
                    let mut tool_calls: Vec<ToolCall> = Vec::new();
                    let n = a.len();
                    proof {
                        assert(json_view_seq(a@).take(0) =~= Seq::<JsonV>::empty());
                        assert(content@.map_values(|s: String| s@) =~= a_texts(
                            json_view_seq(a@).take(0),
                        ));
                        assert(a_tu_blocks(json_view_seq(a@).take(0)) =~= Seq::<JsonV>::empty());
                    }
                    for i in 0..n
                        invariant
                            n == a@.len(),
                            json_view_seq(a@).len() == n,
                            forall|x: int|
                                0 <= x < n ==> json_view_seq(a@)[x] == json_view(a@[x]),
                            crate::wire::parsed_json(body@) == Some(j),
                            a_blocks(j@) == json_view_seq(a@),
                            content@.map_values(|s: String| s@) == a_texts(
                                json_view_seq(a@).take(i as int),
                            ),
                            tool_calls@.len() == a_tu_blocks(
                                json_view_seq(a@).take(i as int),
                            ).len(),
                            forall|x: int|
                                0 <= x < tool_calls@.len() ==> (
                                #[trigger] tool_calls@[x].call_id@,
                                tool_calls@[x].fn_name@,
                                tool_calls@[x].fn_arguments@,
                            ) == a_tu_view(
                                a_tu_blocks(json_view_seq(a@).take(i as int))[x],
                            ),
                            forall|x: int|
                                0 <= x < i && a_block_type(#[trigger] json_view_seq(a@)[x])
                                    == Some("tool_use"@) ==> a_tu_ok(json_view_seq(a@)[x]),
                    {
                        let b = &a[i];
                        proof {
                            reveal_strlit("text");
                            reveal_strlit("tool_use");
                            assert("text"@.len() != "tool_use"@.len());
                            assert("text"@ != "tool_use"@);
                        }
                        let kind = get_str(b, "type");
                        let is_text = match &kind {
                            Some(t) => str_eq(t.as_str(), "text"),
                            None => false,
                        };
                        let is_tool_use = match &kind {
                            Some(t) => str_eq(t.as_str(), "tool_use"),
                            None => false,
                        };
                        if is_text {
                            match get_str(b, "text") {
                                Some(t) => {
                                    content.push(t);
                                },
                                None => {},
                            }
                        } else if is_tool_use {
                            let call_id = match get_str(b, "id") {
                                Some(v) => v,
                                None => {
                                    proof {
                                        assert(a_blocks(j@)[i as int] == json_view_seq(
                                            a@,
                                        )[i as int]);
                                        assert(a_block_type(json_view_seq(a@)[i as int])
                                            == Some("tool_use"@));
                                        assert(!a_tu_ok(json_view_seq(a@)[i as int]));
                                        assert(!a_response_ok(j@));
                                    }
                                    return Err(
                                        Error::ProtocolParse {
                                            message: String::from_str(
                                                "tool call block carries no id",
                                            ),
                                        },
                                    );
                                },
                            };
                            let fn_name = match get_str(b, "name") {
                                Some(v) => v,
                                None => {
                                    proof {
                                        assert(a_blocks(j@)[i as int] == json_view_seq(
                                            a@,
                                        )[i as int]);
                                        assert(a_block_type(json_view_seq(a@)[i as int])
                                            == Some("tool_use"@));
                                        assert(!a_tu_ok(json_view_seq(a@)[i as int]));
                                        assert(!a_response_ok(j@));
                                    }
                                    return Err(
                                        Error::ProtocolParse {
                                            message: String::from_str(
                                                "tool call block carries no name",
                                            ),
                                        },
                                    );
                                },
                            };
                            let fn_arguments = match obj_get(b, "input") {
                                Some(v) => clone_json(v),
                                None => Json::Obj(Vec::new()),
                            };
                            proof {
                                if jv_get(json_view_seq(a@)[i as int], "input"@) is None {
                                    assert(json_view_members(Seq::<(String, Json)>::empty())
                                        =~= Seq::<(Seq<char>, JsonV)>::empty());
                                }
                                assert(fn_arguments@ == a_tu_view(
                                    json_view_seq(a@)[i as int],
                                ).2);
                            }
                            tool_calls.push(ToolCall { call_id, fn_name, fn_arguments });
                        }
                        proof {
                            assert(json_view_seq(a@).take(i + 1).drop_last() =~= json_view_seq(
                                a@,
                            ).take(i as int));
                            assert(json_view_seq(a@).take(i + 1).last() == json_view_seq(
                                a@,
                            )[i as int]);
                            assert(content@.map_values(|s: String| s@) =~= a_texts(
                                json_view_seq(a@).take(i + 1),
                            ));
                            if is_tool_use {
                                assert(a_block_type(json_view_seq(a@)[i as int]) == Some(
                                    "tool_use"@,
                                ));
                                assert(a_tu_ok(json_view_seq(a@)[i as int]));
                                assert(a_tu_blocks(json_view_seq(a@).take(i + 1))
                                    =~= a_tu_blocks(json_view_seq(a@).take(i as int)).push(
                                    json_view_seq(a@)[i as int],
                                ));
                            } else {
                                assert(a_block_type(json_view_seq(a@)[i as int]) != Some(
                                    "tool_use"@,
                                ));
                                assert(a_tu_blocks(json_view_seq(a@).take(i + 1))
                                    =~= a_tu_blocks(json_view_seq(a@).take(i as int)));
                            }
                        }
                    }
                    proof {
                        assert(json_view_seq(a@).take(n as int) =~= json_view_seq(a@));
                    }
                    let usage = match obj_get(&j, "usage") {
                        Some(u) => Usage {
                            prompt_tokens: get_u32(u, "input_tokens"),
                            completion_tokens: get_u32(u, "output_tokens"),
                            total_tokens: None,
                        },
                        None => Usage::none(),
                    };
                    Ok(
                        ChatResponse {
                            content,
                            reasoning_content: None,
                            tool_calls,
                            usage,
                            model_iden: model,
                        },
                    )
                },
            }
        },
    }
}

} // verus!
