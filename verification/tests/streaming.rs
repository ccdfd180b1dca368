use zeroai::chat::{ChatMessage, ChatRequest, Tool, ToolCall, ToolResponse, Usage};
use zeroai::auth_data::{AuthData, EnvVars};
use zeroai::endpoint::Endpoint;
use zeroai::adapter::AdapterKind;
use zeroai::error::Error;
use zeroai::json::{json_to_string, Json};
use zeroai::model::{ModelIden, ServiceTarget};
use zeroai::stream::{run_stream, ChatStreamEvent, StreamPipeline, TransportEvent};
use zeroai::anthropic::{build_anthropic_request, parse_anthropic_response};
use zeroai::wire::{build_request, decode_stream_frame, parse_json, parse_response, sse_payload};

fn usage(p: u32, c: u32, t: u32) -> Usage {
    Usage { prompt_tokens: Some(p), completion_tokens: Some(c), total_tokens: Some(t) }
}

#[test]
fn stream_capture_reassembles_content_in_order() {
    let items = vec![
        TransportEvent::Start,
        TransportEvent::Chunk("a".to_string()),
        TransportEvent::Chunk("b".to_string()),
        TransportEvent::End { finish_reason: Some("stop".to_string()), usage: None },
    ];
    let out = run_stream(&items, true, false);
    assert_eq!(out.len(), 4);
    assert!(matches!(out[0], Ok(ChatStreamEvent::Start)));
    match &out[1] {
        Ok(ChatStreamEvent::Chunk(c)) => assert_eq!(c.content, "a"),
        _ => panic!("second event should be the first chunk"),
    }
    match &out[2] {
        Ok(ChatStreamEvent::Chunk(c)) => assert_eq!(c.content, "b"),
        _ => panic!("third event should be the second chunk"),
    }
    match &out[3] {
        Ok(ChatStreamEvent::End(e)) => {
            assert_eq!(e.captured_content.as_deref(), Some("ab"));
            assert_eq!(e.finish_reason.as_deref(), Some("stop"));
            assert!(e.captured_usage.is_none());
        },
        _ => panic!("last event should be the end"),
    }
}

#[test]
fn stream_without_capture_still_delivers_chunks() {
    let items = vec![
        TransportEvent::Start,
        TransportEvent::Chunk("a".to_string()),
        TransportEvent::Chunk("b".to_string()),
        TransportEvent::End { finish_reason: None, usage: None },
    ];
    let out = run_stream(&items, false, false);
    assert_eq!(out.len(), 4);
    match &out[1] {
        Ok(ChatStreamEvent::Chunk(c)) => assert_eq!(c.content, "a"),
        _ => panic!("chunks still pass through"),
    }
    match &out[3] {
        Ok(ChatStreamEvent::End(e)) => assert!(e.captured_content.is_none()),
        _ => panic!("last event should be the end"),
    }
}

#[test]
fn stream_failure_is_terminal() {
    let items = vec![
        TransportEvent::Start,
        TransportEvent::Chunk("a".to_string()),
        TransportEvent::Failed { message: "reset".to_string() },
        TransportEvent::Chunk("never-seen".to_string()),
    ];
    let out = run_stream(&items, true, true);
    assert_eq!(out.len(), 3);
    assert!(matches!(out[0], Ok(ChatStreamEvent::Start)));
    match &out[1] {
        Ok(ChatStreamEvent::Chunk(c)) => assert_eq!(c.content, "a"),
        _ => panic!("chunk before the failure is delivered"),
    }
    match &out[2] {
        Err(Error::Transport { message }) => assert_eq!(message, "reset"),
        _ => panic!("failure surfaces as the terminal error"),
    }
}

#[test]
fn stream_usage_capture_is_opt_in() {
    let items = vec![TransportEvent::End {
        finish_reason: Some("stop".to_string()),
        usage: Some(usage(1, 2, 3)),
    }];
    let with = run_stream(&items, false, true);
    match &with[0] {
        Ok(ChatStreamEvent::End(e)) => assert_eq!(e.captured_usage, Some(usage(1, 2, 3))),
        _ => panic!("end expected"),
    }
    let without = run_stream(&items, false, false);
    match &without[0] {
        Ok(ChatStreamEvent::End(e)) => assert!(e.captured_usage.is_none()),
        _ => panic!("end expected"),
    }
}

#[test]
fn pipeline_steps_refuse_nothing_before_terminal() {
    let mut pipe = StreamPipeline::new(true, true);
    let first = pipe.step(TransportEvent::Chunk("xy".to_string()));
    match first {
        Ok(ChatStreamEvent::Chunk(c)) => assert_eq!(c.content, "xy"),
        _ => panic!("chunk passes through"),
    }
    let last = pipe.step(TransportEvent::End { finish_reason: None, usage: None });
    match last {
        Ok(ChatStreamEvent::End(e)) => assert_eq!(e.captured_content.as_deref(), Some("xy")),
        _ => panic!("end expected"),
    }
}

#[test]
fn json_serializer_escapes_and_formats() {
    let j = Json::Obj(vec![
        ("text".to_string(), Json::Str("a\"b\\c\nd\u{1}".to_string())),
        ("n".to_string(), Json::Int(-42)),
        ("flag".to_string(), Json::Bool(true)),
        ("nothing".to_string(), Json::Null),
        ("list".to_string(), Json::Arr(vec![Json::Int(0), Json::Str("x".to_string())])),
    ]);
    assert_eq!(
        json_to_string(&j),
        "{\"text\":\"a\\\"b\\\\c\\nd\\u0001\",\"n\":-42,\"flag\":true,\"nothing\":null,\"list\":[0,\"x\"]}"
    );
}

#[test]
fn parse_json_reads_back_wire_text() {
    let parsed = parse_json("{\"a\": [1, \"two\", null], \"b\": {\"c\": true}}")
        .expect("well-formed JSON parses");
    match &parsed {
        Json::Obj(ms) => {
            assert_eq!(ms.len(), 2);
            assert_eq!(ms[0].0, "a");
        },
        _ => panic!("object expected"),
    }
    assert!(parse_json("{not json").is_none());
}

#[test]
fn parse_response_reads_message_and_usage() {
    let body = "{\"choices\":[{\"message\":{\"role\":\"assistant\",\"content\":\"hello\"}}],\
        \"usage\":{\"prompt_tokens\":3,\"completion_tokens\":5,\"total_tokens\":8}}";
    let model = ModelIden::from_static(AdapterKind::OpenAI, "gpt-4o-mini");
    let res = parse_response(body, model).expect("well-shaped response parses");
    assert_eq!(res.first_text().map(|s| s.as_str()), Some("hello"));
    assert_eq!(res.usage, usage(3, 5, 8));
    assert!(res.reasoning_content.is_none());
}

#[test]
fn parse_response_rejects_bodies_without_message() {
    let model = ModelIden::from_static(AdapterKind::OpenAI, "gpt-4o-mini");
    assert!(matches!(
        parse_response("{\"choices\":[]}", model),
        Err(Error::ProtocolParse { .. })
    ));
    let model = ModelIden::from_static(AdapterKind::OpenAI, "gpt-4o-mini");
    assert!(matches!(
        parse_response("not json at all", model),
        Err(Error::ProtocolParse { .. })
    ));
}

#[test]
fn stream_frames_decode_to_transport_items() {
    assert!(matches!(decode_stream_frame("[DONE]"), Ok(None)));
    let chunk = decode_stream_frame(
        "{\"choices\":[{\"delta\":{\"content\":\"hi\"}}]}",
    )
    .expect("chunk frame decodes");
    assert!(matches!(chunk, Some(TransportEvent::Chunk(t)) if t == "hi"));
    let end = decode_stream_frame(
        "{\"choices\":[{\"delta\":{},\"finish_reason\":\"stop\"}],\
         \"usage\":{\"prompt_tokens\":1,\"completion_tokens\":2,\"total_tokens\":3}}",
    )
    .expect("final frame decodes");
    match end {
        Some(TransportEvent::End { finish_reason, usage: u }) => {
            assert_eq!(finish_reason.as_deref(), Some("stop"));
            assert_eq!(u, Some(usage(1, 2, 3)));
        },
        _ => panic!("end expected"),
    }
    let role = decode_stream_frame("{\"choices\":[{\"delta\":{\"role\":\"assistant\"}}]}")
        .expect("role frame decodes");
    assert!(matches!(role, Some(TransportEvent::Start)));
    assert!(matches!(
        decode_stream_frame("{broken"),
        Err(Error::ProtocolParse { .. })
    ));
}

#[test]
fn sse_lines_strip_data_marker() {
    assert_eq!(sse_payload("data: {\"x\":1}").as_deref(), Some("{\"x\":1}"));
    assert_eq!(sse_payload("data: [DONE]").as_deref(), Some("[DONE]"));
    assert!(sse_payload(": keep-alive").is_none());
    assert!(sse_payload("").is_none());
}

#[test]
fn build_request_injects_bearer_auth_and_body() {
    let target = ServiceTarget {
        endpoint: Endpoint::from_static("https://api.groq.com/openai/v1/"),
        auth: AuthData::from_single("sk-live".to_string()),
        model: ModelIden::from_static(AdapterKind::Groq, "llama-3.1-8b"),
    };
    let req = ChatRequest::from_user("hi".to_string()).with_system("be brief".to_string());
    let env = EnvVars::new();
    let w = build_request(&target, &req, None, &env, false).expect("key auth builds");
    assert_eq!(w.url, "https://api.groq.com/openai/v1/chat/completions");
    assert_eq!(w.headers.items[0].0, "Authorization");
    assert_eq!(w.headers.items[0].1, "Bearer sk-live");
    assert_eq!(w.headers.items[1].1, "application/json");
    assert_eq!(
        w.body,
        "{\"model\":\"llama-3.1-8b\",\"messages\":[\
         {\"role\":\"system\",\"content\":\"be brief\"},\
         {\"role\":\"user\",\"content\":\"hi\"}],\"stream\":false}"
    );
}

#[test]
fn build_request_missing_env_fails_with_auth_error() {
    let target = ServiceTarget {
        endpoint: Endpoint::from_static("https://api.openai.com/v1/"),
        auth: AuthData::from_env("OPENAI_API_KEY".to_string()),
        model: ModelIden::from_static(AdapterKind::OpenAI, "gpt-4o-mini"),
    };
    let req = ChatRequest::from_user("hi".to_string());
    let env = EnvVars::new();
    match build_request(&target, &req, None, &env, true) {
        Err(Error::Auth(zeroai::AuthDataError::ApiKeyEnvNotFound { env_name })) => {
            assert_eq!(env_name, "OPENAI_API_KEY");
        },
        _ => panic!("missing variable must fail naming it"),
    }
}

#[test]
fn split_lines_reassembles_across_chunks() {
    let (lines, rest) = zeroai::wire::split_lines(String::new(), "data: a\ndata:");
    assert_eq!(lines, vec!["data: a".to_string()]);
    assert_eq!(rest, "data:");
    let (lines2, rest2) = zeroai::wire::split_lines(rest, " b\n\n");
    assert_eq!(lines2, vec!["data: b".to_string(), "".to_string()]);
    assert_eq!(rest2, "");
}

#[test]
fn parse_response_surfaces_tool_calls() {
    let body = "{\"choices\":[{\"message\":{\"role\":\"assistant\",\"content\":null,\
        \"tool_calls\":[{\"id\":\"call_1\",\"type\":\"function\",\
        \"function\":{\"name\":\"get_weather\",\"arguments\":\"{\\\"city\\\":\\\"Paris\\\"}\"}}]}}]}";
    let model = ModelIden::from_static(AdapterKind::OpenAI, "gpt-4o-mini");
    let res = parse_response(body, model).expect("tool-call response parses");
    assert!(res.first_text().is_none());
    assert_eq!(res.tool_calls.len(), 1);
    assert_eq!(res.tool_calls[0].call_id, "call_1");
    assert_eq!(res.tool_calls[0].fn_name, "get_weather");
    match &res.tool_calls[0].fn_arguments {
        Json::Obj(ms) => {
            assert_eq!(ms.len(), 1);
            assert_eq!(ms[0].0, "city");
            assert!(matches!(&ms[0].1, Json::Str(s) if s == "Paris"));
        },
        _ => panic!("arguments parse into an object"),
    }
}

#[test]
fn parse_response_rejects_unreadable_tool_calls() {
    let body = "{\"choices\":[{\"message\":{\"role\":\"assistant\",\
        \"tool_calls\":[{\"type\":\"function\",\
        \"function\":{\"name\":\"f\",\"arguments\":\"{}\"}}]}}]}";
    let model = ModelIden::from_static(AdapterKind::OpenAI, "gpt-4o-mini");
    assert!(matches!(
        parse_response(body, model),
        Err(Error::ProtocolParse { .. })
    ));
}

#[test]
fn anthropic_request_uses_key_header_and_messages_url() {
    let target = ServiceTarget {
        endpoint: Endpoint::from_static("https://api.anthropic.com/"),
        auth: AuthData::from_single("sk-ant".to_string()),
        model: ModelIden::from_static(AdapterKind::Anthropic, "sonnet-4-5"),
    };
    let req = ChatRequest::from_user("hi".to_string()).with_system("be brief".to_string());
    let env = EnvVars::new();
    let w = build_anthropic_request(&target, &req, None, &env, false).expect("key auth builds");
    assert_eq!(w.url, "https://api.anthropic.com/v1/messages");
    assert_eq!(w.headers.items[0].0, "x-api-key");
    assert_eq!(w.headers.items[0].1, "sk-ant");
    assert_eq!(w.headers.items[1].1, "2023-06-01");
    assert_eq!(
        w.body,
        "{\"model\":\"sonnet-4-5\",\"max_tokens\":1024,\"system\":\"be brief\",\
         \"messages\":[{\"role\":\"user\",\"content\":\"hi\"}],\"stream\":false}"
    );
}

#[test]
fn anthropic_request_translates_tool_turns_and_definitions() {
    let target = ServiceTarget {
        endpoint: Endpoint::from_static("https://api.anthropic.com/"),
        auth: AuthData::from_single("sk-ant".to_string()),
        model: ModelIden::from_static(AdapterKind::Anthropic, "sonnet-4-5"),
    };
    let call = ToolCall {
        call_id: "c1".to_string(),
        fn_name: "get_weather".to_string(),
        fn_arguments: Json::Obj(vec![("city".to_string(), Json::Str("Paris".to_string()))]),
    };
    let req = ChatRequest::from_user("hi".to_string())
        .append_message(ChatMessage::from_tool_calls(vec![call]))
        .append_message(ChatMessage::from_tool_response(ToolResponse::new(
            "c1".to_string(),
            "rainy".to_string(),
        )))
        .with_tools(vec![Tool::new("get_weather".to_string())]);
    let env = EnvVars::new();
    let w = build_anthropic_request(&target, &req, None, &env, false).expect("tools translate");
    assert_eq!(
        w.body,
        "{\"model\":\"sonnet-4-5\",\"max_tokens\":1024,\"messages\":[\
         {\"role\":\"user\",\"content\":\"hi\"},\
         {\"role\":\"assistant\",\"content\":[{\"type\":\"tool_use\",\"id\":\"c1\",\
         \"name\":\"get_weather\",\"input\":{\"city\":\"Paris\"}}]},\
         {\"role\":\"user\",\"content\":[{\"type\":\"tool_result\",\
         \"tool_use_id\":\"c1\",\"content\":\"rainy\"}]}],\
         \"tools\":[{\"name\":\"get_weather\",\"input_schema\":{}}],\"stream\":false}"
    );
}

#[test]
fn anthropic_response_collects_text_blocks_and_usage() {
    let body = "{\"content\":[{\"type\":\"text\",\"text\":\"hel\"},\
        {\"type\":\"tool_use\",\"id\":\"c1\",\"name\":\"f\",\"input\":{\"x\":1}},\
        {\"type\":\"text\",\"text\":\"lo\"}],\
        \"usage\":{\"input_tokens\":4,\"output_tokens\":6}}";
    let model = ModelIden::from_static(AdapterKind::Anthropic, "sonnet-4-5");
    let res = parse_anthropic_response(body, model).expect("content array parses");
    assert_eq!(res.content, vec!["hel".to_string(), "lo".to_string()]);
    assert_eq!(res.usage.prompt_tokens, Some(4));
    assert_eq!(res.usage.completion_tokens, Some(6));
    assert_eq!(res.usage.total_tokens, None);
    assert_eq!(res.tool_calls.len(), 1);
    assert_eq!(res.tool_calls[0].call_id, "c1");
    assert_eq!(res.tool_calls[0].fn_name, "f");
    match &res.tool_calls[0].fn_arguments {
        Json::Obj(ms) => {
            assert_eq!(ms.len(), 1);
            assert_eq!(ms[0].0, "x");
            assert!(matches!(ms[0].1, Json::Int(1)));
        },
        _ => panic!("tool input passes through as an object"),
    }
    let model = ModelIden::from_static(AdapterKind::Anthropic, "sonnet-4-5");
    assert!(matches!(
        parse_anthropic_response("{\"type\":\"error\"}", model),
        Err(Error::ProtocolParse { .. })
    ));
}

#[test]
fn anthropic_response_rejects_unreadable_tool_blocks() {
    let body = "{\"content\":[{\"type\":\"tool_use\",\"name\":\"f\"}]}";
    let model = ModelIden::from_static(AdapterKind::Anthropic, "sonnet-4-5");
    assert!(matches!(
        parse_anthropic_response(body, model),
        Err(Error::ProtocolParse { .. })
    ));
}
