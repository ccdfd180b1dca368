//! The protocol adapter for the OpenAI-compatible wire family, which most
//! registered providers speak: building the outbound request (auth injected,
//! body serialized), parsing the complete response, and decoding streaming
//! frames into the pipeline's transport items.

use crate::auth_data::{pairs_lookup, AuthData, AuthDataError, EnvVars, Headers};
use crate::chat::{ChatMessage, ChatRequest, ChatResponse, Tool, ToolCall, Usage};
use crate::client::ChatOptions;
use crate::error::Error;
use crate::json::{json_text, json_to_string, json_view, json_view_members, json_view_seq,
    lemma_json_view_members, lemma_json_view_seq, Json, JsonV};
use crate::model::{ModelIden, ServiceTarget};
use crate::stream::TransportEvent;
use crate::text::{push_char, str_eq, str_starts_with};
use vstd::prelude::*;
use vstd::string::StrSliceExecFns;
use vstd::string::StringExecFns;

verus! {

/// serde_json's parsed JSON value, declared so that the conversion into the
/// library's model can name it.
#[verifier::external_type_specification]
#[verifier::external_body]
pub struct ExJsonValue(serde_json::Value);

/// What parsing a text as JSON yields: serde_json's parse is a function of
/// the text alone.
pub uninterp spec fn parsed_json(s: Seq<char>) -> Option<Json>;

/// Relies on serde_json::from_str::<serde_json::Value>: accepts exactly the
/// JSON texts, and the parse depends on the text alone.
#[verifier::external_body]
pub fn parse_json(s: &str) -> (r: Option<Json>)
    ensures
        r == parsed_json(s@),
{
    serde_json::from_str::<serde_json::Value>(s).ok().map(json_of_value)
}

/// Relies on serde_json::Value: tells its variants apart, one arm each, into
/// the library's JSON model; integers keep their value, other numbers their
/// text.
#[verifier::external_body]
fn json_of_value(v: serde_json::Value) -> Json {
    match v {
        serde_json::Value::Null => Json::Null,
        serde_json::Value::Bool(b) => Json::Bool(b),
        serde_json::Value::Number(n) => match n.as_i64() {
            Some(i) => Json::Int(i),
            None => Json::Num(n.to_string()),
        },
        serde_json::Value::String(s) => Json::Str(s),
        serde_json::Value::Array(a) => Json::Arr(a.into_iter().map(json_of_value).collect()),
        serde_json::Value::Object(o) => Json::Obj(
            o.into_iter().map(|(k, x)| (k, json_of_value(x))).collect(),
        ),
    }
}

/// The member stored under a key, front to back.
pub open spec fn jv_members_get(ms: Seq<(Seq<char>, JsonV)>, k: Seq<char>) -> Option<JsonV>
    decreases ms.len(),
{
    if ms.len() == 0 {
        None
    } else if ms[0].0 == k {
        Some(ms[0].1)
    } else {
        jv_members_get(ms.drop_first(), k)
    }
}

/// The value stored under a key of a JSON object; anything else holds
/// nothing.
pub open spec fn jv_get(j: JsonV, k: Seq<char>) -> Option<JsonV> {
    match j {
        JsonV::Obj(ms) => jv_members_get(ms, k),
        _ => None,
    }
}

/// The value two keys deep.
pub open spec fn jv_get2(j: JsonV, k1: Seq<char>, k2: Seq<char>) -> Option<JsonV> {
    match jv_get(j, k1) {
        Some(v) => jv_get(v, k2),
        None => None,
    }
}

/// The text of a JSON string value.
pub open spec fn jv_str(j: Option<JsonV>) -> Option<Seq<char>> {
    match j {
        Some(JsonV::Str(s)) => Some(s),
        _ => None,
    }
}

/// The value of a JSON integer that fits a token count.
pub open spec fn jv_u32(j: Option<JsonV>) -> Option<u32> {
    match j {
        Some(JsonV::Int(n)) => if 0 <= n <= 0xffff_ffff {
            Some(n as u32)
        } else {
            None
        },
        _ => None,
    }
}

/// Looks a key up in a JSON object.
pub fn obj_get<'a>(j: &'a Json, k: &str) -> (r: Option<&'a Json>)
    ensures
        match r {
            Some(v) => jv_get(j@, k@) == Some(v@),
            None => jv_get(j@, k@) is None,
        },
{
    match j {
        Json::Obj(ms) => {
            let ghost mv = json_view_members(ms@);
            proof {
                lemma_json_view_members(ms@);
                assert(mv.skip(0) =~= mv);
            }
            let n = ms.len();
            let mut i: usize = 0;
            while i < n
                invariant
                    n == ms@.len(),
                    i <= n,
                    mv == json_view_members(ms@),
                    mv.len() == n,
                    forall|x: int| 0 <= x < n ==> mv[x] == (ms@[x].0@, json_view(ms@[x].1)),
                    jv_members_get(mv.skip(i as int), k@) == jv_members_get(mv, k@),
                    jv_get(j@, k@) == jv_members_get(mv, k@),
                decreases n - i,
            {
                proof {
                    assert(mv.skip(i as int)[0] == mv[i as int]);
                }
                if str_eq(ms[i].0.as_str(), k) {
                    return Some(&ms[i].1);
                }
                proof {
                    assert(mv.skip(i as int).drop_first() =~= mv.skip(i + 1));
                }
                i += 1;
            }
            None
        },
        _ => None,
    }
}

/// Reads a JSON value as a string.
pub fn as_str<'a>(j: &'a Json) -> (r: Option<&'a String>)
    ensures
        match r {
            Some(s) => jv_str(Some(j@)) == Some(s@),
            None => jv_str(Some(j@)) is None,
        },
{
    match j {
        Json::Str(s) => Some(s),
        _ => None,
    }
}

/// Reads a string member of a JSON object.
pub fn get_str(j: &Json, k: &str) -> (r: Option<String>)
    ensures
        match r {
            Some(s) => jv_str(jv_get(j@, k@)) == Some(s@),
            None => jv_str(jv_get(j@, k@)) is None,
        },
{
    match obj_get(j, k) {
        Some(v) => match as_str(v) {
            Some(s) => Some(s.clone()),
            None => None,
        },
        None => None,
    }
}

/// Reads a token-count member of a JSON object.
pub fn get_u32(j: &Json, k: &str) -> (r: Option<u32>)
    ensures
        r == jv_u32(jv_get(j@, k@)),
{
    match obj_get(j, k) {
        Some(v) => match v {
            Json::Int(n) => {
                if *n >= 0 && *n <= 0xffff_ffff {
                    Some(*n as u32)
                } else {
                    None
                }
            },
            _ => None,
        },
        None => None,
    }
}

/// The usage a provider reports in an OpenAI-shaped body.
pub open spec fn spec_usage(j: JsonV) -> Usage {
    match jv_get(j, "usage"@) {
        Some(u) => Usage {
            prompt_tokens: jv_u32(jv_get(u, "prompt_tokens"@)),
            completion_tokens: jv_u32(jv_get(u, "completion_tokens"@)),
            total_tokens: jv_u32(jv_get(u, "total_tokens"@)),
        },
        None => Usage { prompt_tokens: None, completion_tokens: None, total_tokens: None },
    }
}

/// Reads the usage member of an OpenAI-shaped body.
pub fn read_usage(j: &Json) -> (r: Usage)
    ensures
        r == spec_usage(j@),
{
    match obj_get(j, "usage") {
        Some(u) => Usage {
            prompt_tokens: get_u32(u, "prompt_tokens"),
            completion_tokens: get_u32(u, "completion_tokens"),
            total_tokens: get_u32(u, "total_tokens"),
        },
        None => Usage::none(),
    }
}

/// The first element of the `choices` array.
pub open spec fn spec_first_choice(j: JsonV) -> Option<JsonV> {
    match jv_get(j, "choices"@) {
        Some(JsonV::Arr(a)) => if a.len() > 0 {
            Some(a[0])
        } else {
            None
        },
        _ => None,
    }
}

/// Reads the first element of the `choices` array.
pub fn first_choice<'a>(j: &'a Json) -> (r: Option<&'a Json>)
    ensures
        match r {
            Some(v) => spec_first_choice(j@) == Some(v@),
            None => spec_first_choice(j@) is None,
        },
{
    match obj_get(j, "choices") {
        Some(c) => match c {
            Json::Arr(a) => {
                if a.len() > 0 {
                    proof {
                        lemma_json_view_seq(a@);
                    }
                    Some(&a[0])
                } else {
                    None
                }
            },
            _ => None,
        },
        None => None,
    }
}

/// The message object of a non-streaming OpenAI-shaped response.
pub open spec fn spec_response_message(j: JsonV) -> Option<JsonV> {
    match spec_first_choice(j) {
        Some(c) => jv_get(c, "message"@),
        None => None,
    }
}

/// The raw tool-call objects of a response's message, if any.
pub open spec fn spec_tool_calls_raw(j: JsonV) -> Seq<JsonV> {
    match spec_response_message(j) {
        Some(m) => match jv_get(m, "tool_calls"@) {
            Some(JsonV::Arr(a)) => a,
            _ => Seq::empty(),
        },
        None => Seq::empty(),
    }
}

/// A raw tool-call object is understood when it carries a call id, a
/// function name and an argument text.
pub open spec fn spec_tc_ok(ic: JsonV) -> bool {
    &&& jv_str(jv_get(ic, "id"@)) is Some
    &&& jv_str(jv_get2(ic, "function"@, "name"@)) is Some
    &&& jv_str(jv_get2(ic, "function"@, "arguments"@)) is Some
}

/// The argument text parsed as JSON, or an empty object where it is not
/// JSON.
pub open spec fn spec_args_or_empty(s: Seq<char>) -> JsonV {
    match parsed_json(s) {
        Some(j) => j@,
        None => JsonV::Obj(Seq::empty()),
    }
}

/// What one understood raw tool-call object translates to: its id, its
/// function name, and its parsed arguments.
pub open spec fn spec_tc_view(ic: JsonV) -> (Seq<char>, Seq<char>, JsonV) {
    (
        jv_str(jv_get(ic, "id"@))->0,
        jv_str(jv_get2(ic, "function"@, "name"@))->0,
        spec_args_or_empty(jv_str(jv_get2(ic, "function"@, "arguments"@))->0),
    )
}

/// A response is understood when it carries a message object and each of
/// its tool calls is understood.
pub open spec fn spec_response_ok(j: JsonV) -> bool {
    spec_response_message(j) is Some && (forall|k: int|
        0 <= k < spec_tool_calls_raw(j).len() ==> spec_tc_ok(#[trigger] spec_tool_calls_raw(j)[k]))
}

/// Parses a complete non-streaming OpenAI-shaped response body into the
/// uniform shape: the message text if one is present, the reasoning text if
/// the provider sent one, the tool calls issued, and the reported usage. A
/// body without a message object, or with a tool call the adapter cannot
/// read, is a protocol-parse failure, never an empty response.
pub fn parse_response(body: &str, model: ModelIden) -> (r: Result<ChatResponse, Error>)
    ensures
        match parsed_json(body@) {
            Some(j) => {
                &&& r is Ok <==> spec_response_ok(j@)
                &&& (r is Err ==> (r matches Err(Error::ProtocolParse { .. })))
                &&& r matches Ok(res) ==> {
                    &&& res.model_iden == model
                    &&& res.usage == spec_usage(j@)
                    &&& match jv_str(jv_get(spec_response_message(j@)->0, "content"@)) {
                        Some(c) => res.content@.len() == 1 && res.content@[0]@ == c,
                        None => res.content@.len() == 0,
                    }
                    &&& match jv_str(
                        jv_get(spec_response_message(j@)->0, "reasoning_content"@),
                    ) {
                        Some(c) => res.reasoning_content matches Some(rc) && rc@ == c,
                        None => res.reasoning_content is None,
                    }
                    &&& res.tool_calls@.len() == spec_tool_calls_raw(j@).len()
                    &&& forall|k: int|
                        0 <= k < res.tool_calls@.len() ==> (
                        #[trigger] res.tool_calls@[k].call_id@,
                        res.tool_calls@[k].fn_name@,
                        res.tool_calls@[k].fn_arguments@,
                    ) == spec_tc_view(spec_tool_calls_raw(j@)[k])
                }
            },
            None => r matches Err(Error::ProtocolParse { .. }),
        },
{
    let parsed = parse_json(body);
    match parsed {
        None => Err(
            Error::ProtocolParse { message: String::from_str("response body is not JSON") },
        ),
        Some(j) => {
            let msg = match first_choice(&j) {
                Some(c) => obj_get(c, "message"),
                None => None,
            };
            match msg {
                None => Err(
                    Error::ProtocolParse {
                        message: String::from_str("response carries no message"),
                    },
                ),
                Some(m) => {
                    proof {
                        assert(spec_response_message(parsed_json(body@)->0@) == Some(m@));
                        assert(spec_tool_calls_raw(parsed_json(body@)->0@) == spec_msg_tool_calls(
                            m@,
                        ));
                    }
                    let tool_calls = match read_tool_calls(m) {
                        Ok(tc) => tc,
                        Err(e) => {
                            return Err(e);
                        },
                    };
                    let mut content: Vec<String> = Vec::new();
                    match get_str(m, "content") {
                        Some(c) => {
                            content.push(c);
                        },
                        None => {},
                    }
                    let reasoning_content = get_str(m, "reasoning_content");
                    let usage = read_usage(&j);
                    Ok(
                        ChatResponse {
                            content,
                            reasoning_content,
                            tool_calls,
                            usage,
                            model_iden: model,
                        },
                    )
                },
            }
        },
    }
}

/// The content delta of one OpenAI-shaped streaming frame.
pub open spec fn spec_frame_delta(j: JsonV) -> Option<Seq<char>> {
    match spec_first_choice(j) {
        Some(c) => jv_str(jv_get2(c, "delta"@, "content"@)),
        None => None,
    }
}

/// The reasoning delta of one OpenAI-shaped streaming frame.
pub open spec fn spec_frame_reasoning(j: JsonV) -> Option<Seq<char>> {
    match spec_first_choice(j) {
        Some(c) => jv_str(jv_get2(c, "delta"@, "reasoning_content"@)),
        None => None,
    }
}

/// The finish reason of one OpenAI-shaped streaming frame.
pub open spec fn spec_frame_finish(j: JsonV) -> Option<Seq<char>> {
    match spec_first_choice(j) {
        Some(c) => jv_str(jv_get(c, "finish_reason"@)),
        None => None,
    }
}

/// Decodes one server-sent-events data payload of an OpenAI-shaped stream
/// into a transport item.
///
/// The closing sentinel yields nothing; a frame with a finish reason ends
/// the stream, carrying any usage of that frame; a frame with a content or
/// reasoning delta yields that chunk; any other understood frame (such as
/// the opening role frame) marks the start; a payload that is not JSON is a
/// protocol-parse failure.
pub fn decode_stream_frame(data: &str) -> (r: Result<Option<TransportEvent>, Error>)
    ensures
        data@ == "[DONE]"@ ==> r matches Ok(None),
        data@ != "[DONE]"@ ==> match parsed_json(data@) {
            Some(j) => match spec_frame_finish(j@) {
                Some(f) => r matches Ok(Some(TransportEvent::End { finish_reason, usage }))
                    && (finish_reason matches Some(fr) && fr@ == f) && usage == Some(
                    spec_usage(j@),
                ),
                None => match spec_frame_delta(j@) {
                    Some(d) => r matches Ok(Some(TransportEvent::Chunk(c))) && c@ == d,
                    None => match spec_frame_reasoning(j@) {
                        Some(d) => r matches Ok(Some(TransportEvent::ReasoningChunk(c))) && c@
                            == d,
                        None => r matches Ok(Some(TransportEvent::Start)),
                    },
                },
            },
            None => r matches Err(Error::ProtocolParse { .. }),
        },
{
    if str_eq(data, "[DONE]") {
        proof {
            reveal_strlit("[DONE]");
        }
        return Ok(None);
    }
    match parse_json(data) {
        None => Err(
            Error::ProtocolParse { message: String::from_str("stream frame is not JSON") },
        ),
        Some(j) => {
            let choice = first_choice(&j);
            match choice {
                Some(c) => {
                    match get_str(c, "finish_reason") {
                        Some(f) => {
                            let usage = read_usage(&j);
                            return Ok(
                                Some(
                                    TransportEvent::End {
                                        finish_reason: Some(f),
                                        usage: Some(usage),
                                    },
                                ),
                            );
                        },
                        None => {},
                    }
                    let delta = obj_get(c, "delta");
                    match delta {
                        Some(d) => match get_str(d, "content") {
                            Some(t) => Ok(Some(TransportEvent::Chunk(t))),
                            None => match get_str(d, "reasoning_content") {
                                Some(t) => Ok(Some(TransportEvent::ReasoningChunk(t))),
                                None => Ok(Some(TransportEvent::Start)),
                            },
                        },
                        None => Ok(Some(TransportEvent::Start)),
                    }
                },
                None => Ok(Some(TransportEvent::Start)),
            }
        },
    }
}

/// The payload of one server-sent-events line: what follows the data
/// marker.
pub open spec fn spec_sse_payload(line: Seq<char>) -> Option<Seq<char>> {
    if line.len() >= 6 && line.take(6) == "data: "@ {
        Some(line.skip(6))
    } else {
        None
    }
}

/// Extracts the payload of one server-sent-events line; lines without the
/// data marker (comments, blank keep-alives) carry none.
pub fn sse_payload(line: &str) -> (r: Option<String>)
    ensures
        match r {
            Some(p) => spec_sse_payload(line@) == Some(p@),
            None => spec_sse_payload(line@) is None,
        },
{
    proof {
        reveal_strlit("data: ");
    }
    if str_starts_with(line, "data: ") {
        let len = line.unicode_len();
        let rest = line.substring_char(6, len).to_owned();
        proof {
            assert(rest@ =~= line@.skip(6));
        }
        Some(rest)
    } else {
        None
    }
}


/// The wire form of a system prompt.
pub open spec fn sys_msg_json(s: Seq<char>) -> JsonV {
    JsonV::Obj(seq![("role"@, JsonV::Str("system"@)), ("content"@, JsonV::Str(s))])
}

/// The wire form of one tool call issued by the model.
pub open spec fn tool_call_json(c: ToolCall) -> JsonV {
    JsonV::Obj(
        seq![
            ("id"@, JsonV::Str(c.call_id@)),
            ("type"@, JsonV::Str("function"@)),
            (
                "function"@,
                JsonV::Obj(
                    seq![
                        ("name"@, JsonV::Str(c.fn_name@)),
                        ("arguments"@, JsonV::Str(json_text(c.fn_arguments@))),
                    ],
                ),
            ),
        ],
    )
}

/// The wire forms of a sequence of tool calls.
pub open spec fn tool_calls_json(s: Seq<ToolCall>) -> Seq<JsonV>
    decreases s,
{
    if s.len() == 0 {
        Seq::empty()
    } else {
        tool_calls_json(s.drop_last()).push(tool_call_json(s.last()))
    }
}

/// The wire form of one uniform chat message.
pub open spec fn msg_json(m: ChatMessage) -> JsonV {
    match m {
        ChatMessage::User { content } => JsonV::Obj(
            seq![("role"@, JsonV::Str("user"@)), ("content"@, JsonV::Str(content@))],
        ),
        ChatMessage::Assistant { content } => JsonV::Obj(
            seq![("role"@, JsonV::Str("assistant"@)), ("content"@, JsonV::Str(content@))],
        ),
        ChatMessage::ToolCalls(calls) => JsonV::Obj(
            seq![
                ("role"@, JsonV::Str("assistant"@)),
                ("tool_calls"@, JsonV::Arr(tool_calls_json(calls@))),
            ],
        ),
        ChatMessage::ToolResponse(tr) => JsonV::Obj(
            seq![
                ("role"@, JsonV::Str("tool"@)),
                ("tool_call_id"@, JsonV::Str(tr.call_id@)),
                ("content"@, JsonV::Str(tr.content@)),
            ],
        ),
    }
}

/// The wire forms of a sequence of chat messages.
pub open spec fn msgs_json(s: Seq<ChatMessage>) -> Seq<JsonV>
    decreases s,
{
    if s.len() == 0 {
        Seq::empty()
    } else {
        msgs_json(s.drop_last()).push(msg_json(s.last()))
    }
}

/// The optional members of one tool definition's function object.
pub open spec fn tool_fn_members(t: Tool) -> Seq<(Seq<char>, JsonV)> {
    seq![("name"@, JsonV::Str(t.name@))] + (match t.description {
        Some(d) => seq![("description"@, JsonV::Str(d@))],
        None => Seq::empty(),
    }) + (match t.schema {
        Some(sc) => seq![("parameters"@, sc@)],
        None => Seq::empty(),
    })
}

/// The wire form of one tool definition.
pub open spec fn tool_json(t: Tool) -> JsonV {
    JsonV::Obj(
        seq![("type"@, JsonV::Str("function"@)), ("function"@, JsonV::Obj(tool_fn_members(t)))],
    )
}

/// The wire forms of a sequence of tool definitions.
pub open spec fn tools_json(s: Seq<Tool>) -> Seq<JsonV>
    decreases s,
{
    if s.len() == 0 {
        Seq::empty()
    } else {
        tools_json(s.drop_last()).push(tool_json(s.last()))
    }
}

/// The wire forms of a request's messages: the system prompt first, then
/// the conversation in order.
pub open spec fn all_msgs_json(req: ChatRequest) -> Seq<JsonV> {
    (match req.system {
        Some(s) => seq![sys_msg_json(s@)],
        None => Seq::empty(),
    }) + msgs_json(req.messages@)
}

/// The full OpenAI-shaped request body.
pub open spec fn spec_request_body(
    req: ChatRequest,
    model_name: Seq<char>,
    max_tokens: Option<u32>,
    stream: bool,
) -> JsonV {
    JsonV::Obj(
        seq![
            ("model"@, JsonV::Str(model_name)),
            ("messages"@, JsonV::Arr(all_msgs_json(req))),
        ] + (if req.tools@.len() > 0 {
            seq![("tools"@, JsonV::Arr(tools_json(req.tools@)))]
        } else {
            Seq::empty()
        }) + (match max_tokens {
            Some(n) => seq![("max_tokens"@, JsonV::Int(n as int))],
            None => Seq::empty(),
        }) + seq![("stream"@, JsonV::Bool(stream))],
    )
}

/// Builds the wire form of one tool call.
fn build_tool_call(c: &ToolCall) -> (j: Json)
    ensures
        j@ == tool_call_json(*c),
{
    let args = json_to_string(&c.fn_arguments);
    let mut fm: Vec<(String, Json)> = Vec::new();
    fm.push((String::from_str("name"), Json::Str(c.fn_name.clone())));
    fm.push((String::from_str("arguments"), Json::Str(args)));
    let func = Json::Obj(fm);
    let ghost fv = json_view(func);
    proof {
        lemma_json_view_members(func->Obj_0@);
        assert(json_view_members(func->Obj_0@) =~= seq![
            ("name"@, JsonV::Str(c.fn_name@)),
            ("arguments"@, JsonV::Str(json_text(c.fn_arguments@))),
        ]);
    }
    let mut m: Vec<(String, Json)> = Vec::new();
    m.push((String::from_str("id"), Json::Str(c.call_id.clone())));
    m.push((String::from_str("type"), Json::Str(String::from_str("function"))));
    m.push((String::from_str("function"), func));
    let j = Json::Obj(m);
    proof {
        lemma_json_view_members(j->Obj_0@);
        assert(json_view_members(j->Obj_0@) =~= seq![
            ("id"@, JsonV::Str(c.call_id@)),
            ("type"@, JsonV::Str("function"@)),
            ("function"@, fv),
        ]);
    }
    j
}

/// Builds the wire form of one chat message.
fn build_msg(m: &ChatMessage) -> (j: Json)
    ensures
        j@ == msg_json(*m),
{
    match m {
        ChatMessage::User { content } => {
            let mut v: Vec<(String, Json)> = Vec::new();
            v.push((String::from_str("role"), Json::Str(String::from_str("user"))));
            v.push((String::from_str("content"), Json::Str(content.clone())));
            let j = Json::Obj(v);
            proof {
                lemma_json_view_members(j->Obj_0@);
                assert(json_view_members(j->Obj_0@) =~= seq![
                    ("role"@, JsonV::Str("user"@)),
                    ("content"@, JsonV::Str(content@)),
                ]);
            }
            j
        },
        ChatMessage::Assistant { content } => {
            let mut v: Vec<(String, Json)> = Vec::new();
            v.push((String::from_str("role"), Json::Str(String::from_str("assistant"))));
            v.push((String::from_str("content"), Json::Str(content.clone())));
            let j = Json::Obj(v);
            proof {
                lemma_json_view_members(j->Obj_0@);
                assert(json_view_members(j->Obj_0@) =~= seq![
                    ("role"@, JsonV::Str("assistant"@)),
                    ("content"@, JsonV::Str(content@)),
                ]);
            }
            j
        },
        ChatMessage::ToolCalls(calls) => {
            let mut arr: Vec<Json> = Vec::new();
            let n = calls.len();
            for i in 0..n
                invariant
                    n == calls@.len(),
                    json_view_seq(arr@) == tool_calls_json(calls@.take(i as int)),
            {
                let tcj = build_tool_call(&calls[i]);
                let ghost asnap = arr@;
                arr.push(tcj);
                proof {
                    assert(arr@.drop_last() =~= asnap);
                    assert(calls@.take(i + 1).drop_last() =~= calls@.take(i as int));
                    assert(calls@.take(i + 1).last() == calls@[i as int]);
                    assert(json_view_seq(arr@) =~= tool_calls_json(calls@.take(i + 1)));
                }
            }
            proof {
                assert(calls@.take(n as int) =~= calls@);
            }
            let mut v: Vec<(String, Json)> = Vec::new();
            v.push((String::from_str("role"), Json::Str(String::from_str("assistant"))));
            let tc = Json::Arr(arr);
            let ghost tcv = json_view(tc);
            v.push((String::from_str("tool_calls"), tc));
            let j = Json::Obj(v);
            proof {
                lemma_json_view_members(j->Obj_0@);
                assert(json_view_members(j->Obj_0@) =~= seq![
                    ("role"@, JsonV::Str("assistant"@)),
                    ("tool_calls"@, tcv),
                ]);
            }
            j
        },
        ChatMessage::ToolResponse(tr) => {
            let mut v: Vec<(String, Json)> = Vec::new();
            v.push((String::from_str("role"), Json::Str(String::from_str("tool"))));
            v.push((String::from_str("tool_call_id"), Json::Str(tr.call_id.clone())));
            v.push((String::from_str("content"), Json::Str(tr.content.clone())));
            let j = Json::Obj(v);
            proof {
                lemma_json_view_members(j->Obj_0@);
                assert(json_view_members(j->Obj_0@) =~= seq![
                    ("role"@, JsonV::Str("tool"@)),
                    ("tool_call_id"@, JsonV::Str(tr.call_id@)),
                    ("content"@, JsonV::Str(tr.content@)),
                ]);
            }
            j
        },
    }
}

/// Builds the wire form of one tool definition.
fn build_tool(t: &Tool) -> (j: Json)
    ensures
        j@ == tool_json(*t),
{
    let mut fm: Vec<(String, Json)> = Vec::new();
    fm.push((String::from_str("name"), Json::Str(t.name.clone())));
    match &t.description {
        Some(d) => {
            fm.push((String::from_str("description"), Json::Str(d.clone())));
        },
        None => {},
    }
    match &t.schema {
        Some(sc) => {
            fm.push((String::from_str("parameters"), clone_json(sc)));
        },
        None => {},
    }
    let func = Json::Obj(fm);
    let ghost fv = json_view(func);
    proof {
        lemma_json_view_members(func->Obj_0@);
        assert(json_view_members(func->Obj_0@) =~= tool_fn_members(*t));
    }
    let mut v: Vec<(String, Json)> = Vec::new();
    v.push((String::from_str("type"), Json::Str(String::from_str("function"))));
    v.push((String::from_str("function"), func));
    let j = Json::Obj(v);
    proof {
        lemma_json_view_members(j->Obj_0@);
        assert(json_view_members(j->Obj_0@) =~= seq![
            ("type"@, JsonV::Str("function"@)),
            ("function"@, fv),
        ]);
    }
    j
}

/// Copies a JSON value, keeping its abstraction.
pub fn clone_json(j: &Json) -> (r: Json)
    ensures
        r@ == j@,
    decreases *j,
{
    match j {
        Json::Null => Json::Null,
        Json::Bool(b) => Json::Bool(*b),
        Json::Int(n) => Json::Int(*n),
        Json::Num(s) => Json::Num(s.clone()),
        Json::Str(s) => Json::Str(s.clone()),
        Json::Arr(v) => {
            let mut arr: Vec<Json> = Vec::new();
            let n = v.len();
            proof {
                lemma_json_view_seq(v@);
            }
            for i in 0..n
                invariant
                    *j == Json::Arr(*v),
                    n == v@.len(),
                    json_view_seq(v@).len() == n,
                    forall|k: int| 0 <= k < n ==> json_view_seq(v@)[k] == json_view(v@[k]),
                    json_view_seq(arr@) == json_view_seq(v@).take(i as int),
            {
                proof {
                    broadcast use vstd::std_specs::vec::axiom_vec_decreases_to_view;
                    broadcast use vstd::seq::axiom_seq_index_decreases;

                    assert(decreases_to!(*j => j->Arr_0));
                    assert(j->Arr_0 == *v);
                    assert(decreases_to!(*v => v@));
                    assert(decreases_to!(v@ => v@[i as int]));
                }
                let c = clone_json(&v[i]);
                let ghost asnap = arr@;
                arr.push(c);
                proof {
                    assert(arr@.drop_last() =~= asnap);
                    assert(json_view_seq(v@).take(i + 1).drop_last() =~= json_view_seq(v@).take(
                        i as int,
                    ));
                    assert(json_view_seq(v@).take(i + 1).last() == json_view_seq(v@)[i as int]);
                    assert(json_view_seq(arr@) =~= json_view_seq(v@).take(i + 1));
                }
            }
            proof {
                assert(json_view_seq(v@).take(n as int) =~= json_view_seq(v@));
            }
            Json::Arr(arr)
        },
        Json::Obj(v) => {
            let mut ms: Vec<(String, Json)> = Vec::new();
            let n = v.len();
            proof {
                lemma_json_view_members(v@);
            }
            for i in 0..n
                invariant
                    *j == Json::Obj(*v),
                    n == v@.len(),
                    json_view_members(v@).len() == n,
                    forall|k: int|
                        0 <= k < n ==> json_view_members(v@)[k] == (
                            v@[k].0@,
                            json_view(v@[k].1),
                        ),
                    json_view_members(ms@) == json_view_members(v@).take(i as int),
            {
                proof {
                    broadcast use vstd::std_specs::vec::axiom_vec_decreases_to_view;
                    broadcast use vstd::seq::axiom_seq_index_decreases;

                    assert(decreases_to!(*j => j->Obj_0));
                    assert(j->Obj_0 == *v);
                    assert(decreases_to!(*v => v@));
                    assert(decreases_to!(v@ => v@[i as int]));
                    assert(decreases_to!(v@[i as int] => v@[i as int].1));
                }
                let c = clone_json(&v[i].1);
                let ghost msnap = ms@;
                ms.push((v[i].0.clone(), c));
                proof {
                    assert(ms@.drop_last() =~= msnap);
                    assert(json_view_members(v@).take(i + 1).drop_last() =~= json_view_members(
                        v@,
                    ).take(i as int));
                    assert(json_view_members(v@).take(i + 1).last() == json_view_members(
                        v@,
                    )[i as int]);
                    assert(json_view_members(ms@) =~= json_view_members(v@).take(i + 1));
                }
            }
            proof {
                assert(json_view_members(v@).take(n as int) =~= json_view_members(v@));
            }
            Json::Obj(ms)
        },
    }
}

/// Builds the full OpenAI-shaped request body.
fn build_body(req: &ChatRequest, model_name: &str, max_tokens: Option<u32>, stream: bool) -> (j:
    Json)
    ensures
        j@ == spec_request_body(*req, model_name@, max_tokens, stream),
{
    let mut msgs: Vec<Json> = Vec::new();
    match &req.system {
        Some(s) => {
            let mut v: Vec<(String, Json)> = Vec::new();
            v.push((String::from_str("role"), Json::Str(String::from_str("system"))));
            v.push((String::from_str("content"), Json::Str(s.clone())));
            let sj = Json::Obj(v);
            proof {
                lemma_json_view_members(sj->Obj_0@);
                assert(json_view_members(sj->Obj_0@) =~= seq![
                    ("role"@, JsonV::Str("system"@)),
                    ("content"@, JsonV::Str(s@)),
                ]);
            }
            msgs.push(sj);
            proof {
                assert(msgs@.drop_last() =~= Seq::<Json>::empty());
                assert(json_view_seq(Seq::<Json>::empty()) =~= Seq::<JsonV>::empty());
                assert(json_view_seq(msgs@) =~= seq![json_view(sj)]);
            }
        },
        None => {},
    }
    let ghost sys_part = match &req.system {
        Some(s) => seq![sys_msg_json(s@)],
        None => Seq::<JsonV>::empty(),
    };
    proof {
        assert(req.messages@.take(0) =~= Seq::<ChatMessage>::empty());
        assert(sys_part + msgs_json(req.messages@.take(0)) =~= sys_part);
        assert(json_view_seq(msgs@) =~= sys_part);
    }
    let n = req.messages.len();
    for i in 0..n
        invariant
            n == req.messages@.len(),
            sys_part == (match req.system {
                Some(s) => seq![sys_msg_json(s@)],
                None => Seq::<JsonV>::empty(),
            }),
            json_view_seq(msgs@) == sys_part + msgs_json(req.messages@.take(i as int)),
    {
        let mj = build_msg(&req.messages[i]);
        let ghost msnap = msgs@;
        msgs.push(mj);
        proof {
            assert(msgs@.drop_last() =~= msnap);
            assert(req.messages@.take(i + 1).drop_last() =~= req.messages@.take(i as int));
            assert(req.messages@.take(i + 1).last() == req.messages@[i as int]);
            assert(json_view_seq(msgs@) =~= sys_part + msgs_json(req.messages@.take(i + 1)));
        }
    }
    proof {
        assert(req.messages@.take(n as int) =~= req.messages@);
        assert(json_view_seq(msgs@) =~= all_msgs_json(*req));
    }
    let mut tools: Vec<Json> = Vec::new();
    let tn = req.tools.len();
    proof {
        assert(req.tools@.take(0) =~= Seq::<Tool>::empty());
        assert(json_view_seq(tools@) =~= tools_json(req.tools@.take(0)));
    }
    for i in 0..tn
        invariant
            tn == req.tools@.len(),
            json_view_seq(tools@) == tools_json(req.tools@.take(i as int)),
    {
        let tj = build_tool(&req.tools[i]);
        let ghost tsnap = tools@;
        tools.push(tj);
        proof {
            assert(tools@.drop_last() =~= tsnap);
            assert(req.tools@.take(i + 1).drop_last() =~= req.tools@.take(i as int));
            assert(req.tools@.take(i + 1).last() == req.tools@[i as int]);
            assert(json_view_seq(tools@) =~= tools_json(req.tools@.take(i + 1)));
        }
    }
    proof {
        assert(req.tools@.take(tn as int) =~= req.tools@);
    }
    let has_tools = req.tools.len() > 0;
    let mut members: Vec<(String, Json)> = Vec::new();
    members.push((String::from_str("model"), Json::Str(model_name.to_owned())));
    let marr = Json::Arr(msgs);
    let ghost mav = json_view(marr);
    members.push((String::from_str("messages"), marr));
    if has_tools {
        let tarr = Json::Arr(tools);
        proof {
            assert(json_view(tarr) == JsonV::Arr(tools_json(req.tools@)));
        }
        members.push((String::from_str("tools"), tarr));
    }
    match max_tokens {
        Some(mt) => {
            members.push((String::from_str("max_tokens"), Json::Int(mt as i64)));
        },
        None => {},
    }
    members.push((String::from_str("stream"), Json::Bool(stream)));
    let j = Json::Obj(members);
    proof {
        lemma_json_view_members(j->Obj_0@);
        assert(mav == JsonV::Arr(all_msgs_json(*req)));
        assert(json_view_members(j->Obj_0@) =~= seq![
            ("model"@, JsonV::Str(model_name@)),
            ("messages"@, JsonV::Arr(all_msgs_json(*req))),
        ] + (if req.tools@.len() > 0 {
            seq![("tools"@, JsonV::Arr(tools_json(req.tools@)))]
        } else {
            Seq::<(Seq<char>, JsonV)>::empty()
        }) + (match max_tokens {
            Some(mt) => seq![("max_tokens"@, JsonV::Int(mt as int))],
            None => Seq::<(Seq<char>, JsonV)>::empty(),
        }) + seq![("stream"@, JsonV::Bool(stream))]);
    }
    j
}

/// One fully prepared outbound HTTP request: the URL, the headers (auth
/// injected), and the JSON body. It carries the resolved secret in its
/// headers, so it has no debug rendering.
pub struct WireRequest {
    pub url: String,
    pub headers: Headers,
    pub body: String,
}

/// The serialized request body a target and request translate to.
pub open spec fn spec_wire_body(
    req: ChatRequest,
    target: ServiceTarget,
    max_tokens: Option<u32>,
    stream: bool,
) -> Seq<char> {
    json_text(spec_request_body(req, target.model.model_name@, max_tokens, stream))
}

/// The default chat-completions URL under a base endpoint.
pub open spec fn spec_chat_url(endpoint: Seq<char>) -> Seq<char> {
    endpoint + "chat/completions"@
}

/// The bearer header value carrying a secret.
pub open spec fn bearer_of(k: Seq<char>) -> Seq<char> {
    "Bearer "@ + k
}

/// A prepared request against the default URL with standard secret
/// injection: the auth header when a secret applies, and the JSON content
/// type.
pub open spec fn wire_ok(
    r: Result<WireRequest, Error>,
    url: Seq<char>,
    auth_header: Option<Seq<char>>,
    body: Seq<char>,
) -> bool {
    r matches Ok(w) && w.url@ == url && w.body@ == body && (match auth_header {
        Some(h) => w.headers.items@.len() == 2 && w.headers.items@[0].0@ == "Authorization"@
            && w.headers.items@[0].1@ == h && w.headers.items@[1].0@ == "Content-Type"@
            && w.headers.items@[1].1@ == "application/json"@,
        None => w.headers.items@.len() == 1 && w.headers.items@[0].0@ == "Content-Type"@
            && w.headers.items@[0].1@ == "application/json"@,
    })
}

/// Copies a header set.
pub(crate) fn clone_headers(h: &Headers) -> (r: Headers)
    ensures
        r.items@ == h.items@,
{
    let mut items: Vec<(String, String)> = Vec::new();
    let n = h.items.len();
    for i in 0..n
        invariant
            n == h.items@.len(),
            items@ == h.items@.take(i as int),
    {
        items.push((h.items[i].0.clone(), h.items[i].1.clone()));
        proof {
            assert(items@ =~= h.items@.take(i + 1));
        }
    }
    proof {
        assert(h.items@.take(n as int) =~= h.items@);
    }
    Headers { items }
}

/// Translates the uniform chat request into the provider's wire request,
/// resolving auth against the given environment snapshot and injecting it.
///
/// A request override supplies its own URL and headers and bypasses secret
/// injection; an environment reference or a literal key becomes a bearer
/// header on the default chat URL; no-auth targets get no auth header; a
/// missing environment variable or a multi-key auth form fails as an auth
/// error, naming the variable where one was named.
pub fn build_request(
    target: &ServiceTarget,
    req: &ChatRequest,
    options: Option<&ChatOptions>,
    env: &EnvVars,
    stream: bool,
) -> (r: Result<WireRequest, Error>)
    ensures
        ({
            let mt = match options {
                Some(o) => o.max_tokens,
                None => None,
            };
            let body = spec_wire_body(*req, *target, mt, stream);
            match target.auth {
                AuthData::RequestOverride { url, headers } => r matches Ok(w) && w.url@ == url@
                    && w.headers.items@ == headers.items@ && w.body@ == body,
                AuthData::FromEnv(n) => match pairs_lookup(env.entries@, n@) {
                    Some(k) => wire_ok(r, spec_chat_url(target.endpoint@), Some(bearer_of(k)),
                        body),
                    None => r matches Err(
                        Error::Auth(AuthDataError::ApiKeyEnvNotFound { env_name }),
                    ) && env_name@ == n@,
                },
                AuthData::Key(v) => wire_ok(r, spec_chat_url(target.endpoint@), Some(
                    bearer_of(v@),
                ), body),
                AuthData::NoAuth => wire_ok(r, spec_chat_url(target.endpoint@), None, body),
                AuthData::MultiKeys(_) => r matches Err(
                    Error::Auth(AuthDataError::AuthDataNotSingleValue),
                ),
            }
        }),
{
    let max_tokens = match options {
        Some(o) => o.max_tokens,
        None => None,
    };
    let body_json = build_body(req, target.model.model_name.as_str(), max_tokens, stream);
    let body = json_to_string(&body_json);
    match &target.auth {
        AuthData::RequestOverride { url, headers } => Ok(
            WireRequest { url: url.clone(), headers: clone_headers(headers), body },
        ),
        AuthData::FromEnv(n) => match env.lookup(n.as_str()) {
            Some(key) => Ok(bearer_request(target, key, body)),
            None => Err(
                Error::Auth(AuthDataError::ApiKeyEnvNotFound { env_name: n.clone() }),
            ),
        },
        AuthData::Key(v) => Ok(bearer_request(target, v.clone(), body)),
        AuthData::NoAuth => {
            let mut url = target.endpoint.base_url().to_owned();
            url.append("chat/completions");
            let mut headers = Headers::new();
            headers.push(
                String::from_str("Content-Type"),
                String::from_str("application/json"),
            );
            Ok(WireRequest { url, headers, body })
        },
        AuthData::MultiKeys(_) => Err(Error::Auth(AuthDataError::AuthDataNotSingleValue)),
    }
}

/// The text of a sequence of complete lines, each closed by the newline.
pub open spec fn joined_lines(lines: Seq<Seq<char>>) -> Seq<char>
    decreases lines,
{
    if lines.len() == 0 {
        Seq::empty()
    } else {
        joined_lines(lines.drop_last()) + lines.last() + seq!['\n']
    }
}

/// Whether a text holds no newline.
pub open spec fn line_free(s: Seq<char>) -> bool {
    forall|i: int| 0 <= i < s.len() ==> s[i] != '\n'
}

/// The views of a sequence of lines.
pub open spec fn lines_view(lines: Seq<String>) -> Seq<Seq<char>> {
    lines.map_values(|l: String| l@)
}

/// Splits the carried buffer joined with one more transport chunk into the
/// complete lines and the trailing incomplete rest, so that frames spanning
/// chunk boundaries reassemble before they are decoded.
///
/// The lines and the rest partition the input exactly: joining the lines,
/// each closed by its newline, and appending the rest gives the input back,
/// and neither a line nor the rest holds a newline.
pub fn split_lines(buf: String, chunk: &str) -> (r: (Vec<String>, String))
    requires
        line_free(buf@),
    ensures
        buf@ + chunk@ == joined_lines(lines_view(r.0@)) + r.1@,
        forall|i: int| 0 <= i < r.0@.len() ==> line_free(#[trigger] lines_view(r.0@)[i]),
        line_free(r.1@),
{
    let ghost buf0 = buf@;
    let mut lines: Vec<String> = Vec::new();
    let mut current = buf;
    let len = chunk.unicode_len();
    proof {
        assert(chunk@.take(0) =~= Seq::<char>::empty());
        assert(joined_lines(lines_view(lines@)) =~= Seq::<char>::empty());
        assert(current@ + chunk@.take(0) =~= joined_lines(lines_view(lines@)) + current@);
    }
    for i in 0..len
        invariant
            len == chunk@.len(),
            buf0 + chunk@.take(i as int) == joined_lines(lines_view(lines@)) + current@,
            forall|x: int| 0 <= x < lines@.len() ==> line_free(#[trigger] lines_view(lines@)[x]),
            line_free(current@),
    {
        let c = chunk.get_char(i);
        proof {
            assert(chunk@.take(i + 1) =~= chunk@.take(i as int).push(c));
        }
        if c == '\n' {
            let ghost lsnap = lines@;
            let ghost csnap = current@;
            let done = current;
            lines.push(done);
            current = String::new();
            proof {
                assert(lines_view(lines@) =~= lines_view(lsnap).push(csnap));
                assert(lines_view(lines@).drop_last() =~= lines_view(lsnap));
                assert(lines_view(lines@).last() == csnap);
                assert(joined_lines(lines_view(lines@)) =~= joined_lines(lines_view(lsnap))
                    + csnap + seq!['\n']);
                assert(buf0 + chunk@.take(i + 1) =~= joined_lines(lines_view(lines@))
                    + current@);
            }
        } else {
            let ghost csnap = current@;
            push_char(&mut current, c);
            proof {
                assert(current@ =~= csnap.push(c));
                assert(buf0 + chunk@.take(i as int) == joined_lines(lines_view(lines@)) + csnap);
                assert(buf0 + chunk@.take(i + 1) =~= (buf0 + chunk@.take(i as int)).push(c));
                assert((joined_lines(lines_view(lines@)) + csnap).push(c) =~= joined_lines(
                    lines_view(lines@),
                ) + current@);
                assert(buf0 + chunk@.take(i + 1) =~= joined_lines(lines_view(lines@))
                    + current@);
            }
        }
    }
    proof {
        assert(chunk@.take(len as int) =~= chunk@);
    }
    (lines, current)
}

/// Assembles the default chat URL and bearer-token headers around a body.
fn bearer_request(target: &ServiceTarget, key: String, body: String) -> (w: WireRequest)
    ensures
        w.url@ == spec_chat_url(target.endpoint@),
        w.headers.items@.len() == 2,
        w.headers.items@[0].0@ == "Authorization"@,
        w.headers.items@[0].1@ == bearer_of(key@),
        w.headers.items@[1].0@ == "Content-Type"@,
        w.headers.items@[1].1@ == "application/json"@,
        w.body == body,
{
    let mut url = target.endpoint.base_url().to_owned();
    url.append("chat/completions");
    let mut bearer = String::from_str("Bearer ");
    bearer.append(key.as_str());
    let mut headers = Headers::new();
    headers.push(String::from_str("Authorization"), bearer);
    headers.push(String::from_str("Content-Type"), String::from_str("application/json"));
    WireRequest { url, headers, body }
}


/// The raw tool-call objects of one message object.
pub open spec fn spec_msg_tool_calls(m: JsonV) -> Seq<JsonV> {
    match jv_get(m, "tool_calls"@) {
        Some(JsonV::Arr(a)) => a,
        _ => Seq::empty(),
    }
}

/// Reads the tool calls of a response's message object; a tool call without
/// an id, a name or an argument text is a protocol-parse failure.
fn read_tool_calls(m: &Json) -> (r: Result<Vec<ToolCall>, Error>)
    ensures
        (r is Err ==> (r matches Err(Error::ProtocolParse { .. }))),
        r is Ok <==> (forall|k: int|
            0 <= k < spec_msg_tool_calls(m@).len() ==> spec_tc_ok(
                #[trigger] spec_msg_tool_calls(m@)[k],
            )),
        r matches Ok(tc) ==> tc@.len() == spec_msg_tool_calls(m@).len() && (forall|k: int|
            0 <= k < tc@.len() ==> (
            #[trigger] tc@[k].call_id@,
            tc@[k].fn_name@,
            tc@[k].fn_arguments@,
        ) == spec_tc_view(spec_msg_tool_calls(m@)[k])),
{
    let mut out: Vec<ToolCall> = Vec::new();
    let arr = match obj_get(m, "tool_calls") {
        Some(v) => match v {
            Json::Arr(a) => Some(a),
            _ => None,
        },
        None => None,
    };
    match arr {
        None => {
            proof {
                assert(spec_msg_tool_calls(m@) =~= Seq::<JsonV>::empty());
            }
            Ok(out)
        },
        Some(a) => {
            proof {
                lemma_json_view_seq(a@);
                assert(spec_msg_tool_calls(m@) == json_view_seq(a@));
            }
            let n = a.len();
            for k in 0..n
                invariant
                    n == a@.len(),
                    json_view_seq(a@).len() == n,
                    forall|x: int| 0 <= x < n ==> json_view_seq(a@)[x] == json_view(a@[x]),
                    spec_msg_tool_calls(m@) == json_view_seq(a@),
                    out@.len() == k,
                    forall|x: int| 0 <= x < k ==> spec_tc_ok(#[trigger] json_view_seq(a@)[x]),
                    forall|x: int|
                        0 <= x < k ==> (
                        #[trigger] out@[x].call_id@,
                        out@[x].fn_name@,
                        out@[x].fn_arguments@,
                    ) == spec_tc_view(json_view_seq(a@)[x]),
            {
                let ic = &a[k];
                let call_id = match get_str(ic, "id") {
                    Some(v) => v,
                    None => {
                        proof {
                            assert(ic@ == json_view_seq(a@)[k as int]);
                            assert(!spec_tc_ok(json_view_seq(a@)[k as int]));
                        }
                        return Err(
                            Error::ProtocolParse {
                                message: String::from_str("tool call carries no id"),
                            },
                        );
                    },
                };
                let func = match obj_get(ic, "function") {
                    Some(f) => f,
                    None => {
                        proof {
                            assert(ic@ == json_view_seq(a@)[k as int]);
                            assert(!spec_tc_ok(json_view_seq(a@)[k as int]));
                        }
                        return Err(
                            Error::ProtocolParse {
                                message: String::from_str("tool call carries no function"),
                            },
                        );
                    },
                };
                let fn_name = match get_str(func, "name") {
                    Some(v) => v,
                    None => {
                        proof {
                            assert(ic@ == json_view_seq(a@)[k as int]);
                            assert(!spec_tc_ok(json_view_seq(a@)[k as int]));
                        }
                        return Err(
                            Error::ProtocolParse {
                                message: String::from_str("tool call carries no name"),
                            },
                        );
                    },
                };
                let args_text = match get_str(func, "arguments") {
                    Some(v) => v,
                    None => {
                        proof {
                            assert(ic@ == json_view_seq(a@)[k as int]);
                            assert(!spec_tc_ok(json_view_seq(a@)[k as int]));
                        }
                        return Err(
                            Error::ProtocolParse {
                                message: String::from_str("tool call carries no arguments"),
                            },
                        );
                    },
                };
                let fn_arguments = match parse_json(args_text.as_str()) {
                    Some(j) => j,
                    None => Json::Obj(Vec::new()),
                };
                proof {
                    assert(fn_arguments@ == spec_args_or_empty(args_text@));
                }
                out.push(ToolCall { call_id, fn_name, fn_arguments });
            }
            Ok(out)
        },
    }
}

} // verus!
