//! Providers: what is sent to them, and what their streams come to.

use tao::config::{AnthropicAuth, WireApi};
use tao::content::{StopReason, TokenUsage};
use tao::ids::CallId;
use tao::json::print;
use tao::model::{
    ModelContent, ModelError, ModelMessage, ModelRequest, ModelStreamEvent, RequestMeta,
    SystemBlock,
};
use tao::providers::anthropic::{context_window, AnthropicDecoder};
use tao::providers::common::{
    after_failed_request, backoff, endpoint, idle_error, malformed_error, status_error,
    transport_error, Retry, SseEvent, StreamRetry,
};
use tao::providers::openai_chat::OpenAiChatDecoder;
use tao::providers::openai_responses::OpenAiResponsesDecoder;
use tao::providers::registry::ClientPlan;

fn sse(event: &str, data: &str) -> SseEvent {
    SseEvent::received(event.into(), data.into(), String::new())
}

fn req() -> ModelRequest {
    ModelRequest {
        model: "sonnet-4-6".into(),
        system: vec![SystemBlock { text: "你是助手".into(), cache_breakpoint: None }],
        messages: vec![ModelMessage::User { content: vec![ModelContent::Text("hi".into())] }],
        tools: vec![],
        reasoning: None,
        max_output_tokens: 1024,
        temperature: None,
        metadata: RequestMeta { session_id: None, turn_id: None },
    }
}

fn plan(wire_api: WireApi, auth: AnthropicAuth) -> ClientPlan {
    ClientPlan {
        wire_api,
        base_url: "https://host/".into(),
        auth,
        api_key: "test-key".into(),
        model_id: "m".into(),
    }
}

fn anthropic(events: &[(&str, &str)]) -> Vec<ModelStreamEvent> {
    let mut d = AnthropicDecoder::new();
    events.iter().flat_map(|(e, data)| d.handle_event(&sse(e, data)).unwrap()).collect()
}

fn chat(events: &[&str]) -> Vec<ModelStreamEvent> {
    let mut d = OpenAiChatDecoder::new();
    events.iter().flat_map(|data| d.handle_event(&sse("", data)).unwrap()).collect()
}

fn responses(events: &[(&str, &str)]) -> Vec<ModelStreamEvent> {
    let mut d = OpenAiResponsesDecoder::new();
    events.iter().flat_map(|(e, data)| d.handle_event(&sse(e, data)).unwrap()).collect()
}

fn texts(events: &[ModelStreamEvent]) -> Vec<String> {
    events
        .iter()
        .filter_map(|e| match e {
            ModelStreamEvent::TextDelta(t) => Some(t.clone()),
            _ => None,
        })
        .collect()
}

fn end(events: &[ModelStreamEvent]) -> Option<(StopReason, &TokenUsage)> {
    events.iter().find_map(|e| match e {
        ModelStreamEvent::MessageEnd { stop_reason, usage } => Some((*stop_reason, usage)),
        _ => None,
    })
}

fn fragments(events: &[ModelStreamEvent]) -> String {
    events
        .iter()
        .filter_map(|e| match e {
            ModelStreamEvent::ToolUseInputDelta { json_fragment, .. } => {
                Some(json_fragment.clone())
            }
            _ => None,
        })
        .collect()
}

fn begun(events: &[ModelStreamEvent]) -> Option<(CallId, String)> {
    events.iter().find_map(|e| match e {
        ModelStreamEvent::ToolUseBegin { call_id, name } => {
            Some((call_id.clone(), name.clone()))
        }
        _ => None,
    })
}

#[test]
fn text_streaming_produces_text_delta_and_end() {
    let events = anthropic(&[
        (
            "message_start",
            r#"{"type":"message_start","message":{"id":"msg_1","usage":{"input_tokens":10,"output_tokens":0}}}"#,
        ),
        ("content_block_start", r#"{"index":0,"content_block":{"type":"text","text":""}}"#),
        ("content_block_delta", r#"{"index":0,"delta":{"type":"text_delta","text":"Hel"}}"#),
        ("content_block_delta", r#"{"index":0,"delta":{"type":"text_delta","text":"lo"}}"#),
        ("content_block_stop", r#"{"index":0}"#),
        (
            "message_delta",
            r#"{"delta":{"stop_reason":"end_turn"},"usage":{"output_tokens":2}}"#,
        ),
        ("message_stop", r#"{"type":"message_stop"}"#),
    ]);
    assert_eq!(texts(&events), vec!["Hel", "lo"]);
    assert_eq!(end(&events).unwrap().0, StopReason::EndTurn);
    let call = plan(WireApi::Anthropic, AnthropicAuth::ApiKey).call(&req()).unwrap();
    assert_eq!(call.url, "https://host/v1/messages");
    assert_eq!(
        call.headers,
        vec![
            ("anthropic-version".to_string(), "2023-06-01".to_string()),
            ("x-api-key".to_string(), "test-key".to_string()),
        ]
    );
}

#[test]
fn tool_use_partial_json_accumulated_into_deltas() {
    let events = anthropic(&[
        (
            "message_start",
            r#"{"type":"message_start","message":{"id":"msg_1","usage":{"input_tokens":5,"output_tokens":0}}}"#,
        ),
        (
            "content_block_start",
            r#"{"index":0,"content_block":{"type":"tool_use","id":"toolu_01","name":"Bash"}}"#,
        ),
        (
            "content_block_delta",
            r#"{"index":0,"delta":{"type":"input_json_delta","partial_json":"{\"command\":"}}"#,
        ),
        (
            "content_block_delta",
            r#"{"index":0,"delta":{"type":"input_json_delta","partial_json":"[\"ls\"]}"}}"#,
        ),
        ("content_block_stop", r#"{"index":0}"#),
        (
            "message_delta",
            r#"{"delta":{"stop_reason":"tool_use"},"usage":{"output_tokens":3}}"#,
        ),
        ("message_stop", r#"{"type":"message_stop"}"#),
    ]);
    assert_eq!(begun(&events), Some((CallId::new("toolu_01"), "Bash".to_owned())));
    assert_eq!(fragments(&events), r#"{"command":["ls"]}"#);
    assert_eq!(end(&events).unwrap().0, StopReason::ToolUse);
}

#[test]
fn retry_on_429_then_succeed() {
    let e = status_error(429, "429 Too Many Requests", "slow down");
    assert!(matches!(e, ModelError::Retryable(_)));
    assert_eq!(after_failed_request(&e, 1, 3), Retry::After(500));
    assert_eq!(after_failed_request(&e, 4, 3), Retry::GiveUp);
}

#[test]
fn auth_error_is_not_retried() {
    let e = status_error(401, "401 Unauthorized", "invalid api key");
    assert!(matches!(e, ModelError::Auth(_)));
    assert_eq!(after_failed_request(&e, 1, 5), Retry::GiveUp);
}

#[test]
fn waits_grow_and_are_bounded() {
    assert_eq!(backoff(1), 500);
    assert_eq!(backoff(2), 1000);
    assert_eq!(backoff(3), 2000);
    assert_eq!(backoff(100), 30_000);
}

#[test]
fn broken_streams_are_taken_up_again() {
    let mut r = StreamRetry::new(1);
    r.received(&SseEvent::received("e".into(), "d".into(), "id-7".into()));
    assert_eq!(r.last_event_id.as_deref(), Some("id-7"));
    let e = ModelError::Stream("cut".into());
    assert!(matches!(r.broke(&e, false), Retry::After(_)));
    assert_eq!(r.broke(&e, false), Retry::GiveUp);
    assert_eq!(StreamRetry::new(3).broke(&e, true), Retry::GiveUp);
}

#[test]
fn errors_by_what_to_do_about_them() {
    assert!(matches!(status_error(500, "500", "x"), ModelError::Retryable(_)));
    assert!(matches!(status_error(404, "404", "x"), ModelError::Fatal(_)));
    assert!(matches!(transport_error(true, false, false, "t"), ModelError::Retryable(_)));
    assert!(idle_error(5000).message().contains("5"));
    assert!(malformed_error("bad").message().contains("bad"));
    assert_eq!(endpoint("https://h//", "/v1"), "https://h/v1");
}

#[test]
fn text_streaming_and_usage() {
    let events = chat(&[
        r#"{"choices":[{"delta":{"content":"Hel"},"index":0}]}"#,
        r#"{"choices":[{"delta":{"content":"lo"},"index":0}]}"#,
        r#"{"choices":[{"delta":{},"index":0,"finish_reason":"stop"}]}"#,
        r#"{"choices":[],"usage":{"prompt_tokens":5,"completion_tokens":2,"prompt_tokens_details":{"cached_tokens":0}}}"#,
    ]);
    assert_eq!(texts(&events), vec!["Hel", "lo"]);
    let (stop, usage) = end(&events).unwrap();
    assert_eq!(stop, StopReason::EndTurn);
    assert_eq!((usage.input, usage.output), (5, 2));
    let call = plan(WireApi::OpenaiChat, AnthropicAuth::ApiKey).call(&req()).unwrap();
    assert_eq!(call.url, "https://host/v1/chat/completions");
    assert_eq!(
        call.headers,
        vec![("authorization".to_string(), "Bearer test-key".to_string())]
    );
}

#[test]
fn tool_calls_index_accumulation() {
    let events = chat(&[
        r#"{"choices":[{"delta":{"tool_calls":[{"index":0,"id":"call_1","type":"function","function":{"name":"Bash","arguments":""}}]},"index":0}]}"#,
        r#"{"choices":[{"delta":{"tool_calls":[{"index":0,"function":{"arguments":"{\"comm"}}]},"index":0}]}"#,
        r#"{"choices":[{"delta":{"tool_calls":[{"index":0,"function":{"arguments":"and\":[\"ls\"]}"}}]},"index":0,"finish_reason":"tool_calls"}]}"#,
        r#"{"choices":[],"usage":{"prompt_tokens":5,"completion_tokens":3}}"#,
    ]);
    assert_eq!(begun(&events), Some((CallId::new("call_1"), "Bash".to_owned())));
    assert_eq!(fragments(&events), r#"{"command":["ls"]}"#);
    assert!(events.iter().any(
        |e| matches!(e, ModelStreamEvent::ToolUseEnd { call_id } if call_id == &CallId::new("call_1"))
    ));
    assert_eq!(end(&events).unwrap().0, StopReason::ToolUse);
}

#[test]
fn reasoning_content_mapped_to_thinking_delta() {
    let events = chat(&[
        r#"{"choices":[{"delta":{"reasoning_content":"思考"},"index":0}]}"#,
        r#"{"choices":[{"delta":{"content":"答案"},"index":0,"finish_reason":"stop"}]}"#,
        r#"{"choices":[],"usage":{"prompt_tokens":1,"completion_tokens":1}}"#,
    ]);
    assert!(events.iter().any(|e| matches!(e, ModelStreamEvent::ThinkingDelta(t) if t == "思考")));
    assert!(events.iter().any(|e| matches!(e, ModelStreamEvent::TextDelta(t) if t == "答案")));
}

#[test]
fn retry_on_500_then_succeed() {
    let e = status_error(500, "500 Internal Server Error", "internal error");
    assert_eq!(after_failed_request(&e, 1, 3), Retry::After(500));
}

#[test]
fn text_streaming_and_completion() {
    let events = responses(&[
        ("response.created", r#"{"response":{"id":"resp_1","status":"in_progress"}}"#),
        (
            "response.output_item.added",
            r#"{"output_index":0,"item":{"type":"message","role":"assistant","id":"msg_1"}}"#,
        ),
        (
            "response.content_part.added",
            r#"{"output_index":0,"content_index":0,"part":{"type":"output_text","text":""}}"#,
        ),
        (
            "response.output_text.delta",
            r#"{"output_index":0,"content_index":0,"delta":"Hel"}"#,
        ),
        (
            "response.output_text.delta",
            r#"{"output_index":0,"content_index":0,"delta":"lo"}"#,
        ),
        (
            "response.output_text.done",
            r#"{"output_index":0,"content_index":0,"text":"Hello"}"#,
        ),
        (
            "response.content_part.done",
            r#"{"output_index":0,"content_index":0,"part":{"type":"output_text","text":"Hello"}}"#,
        ),
        (
            "response.output_item.done",
            r#"{"output_index":0,"item":{"type":"message","role":"assistant","id":"msg_1"}}"#,
        ),
        (
            "response.completed",
            r#"{"response":{"id":"resp_1","status":"completed","usage":{"input_tokens":5,"output_tokens":2,"input_tokens_details":{"cached_tokens":0},"output_tokens_details":{"reasoning_tokens":0}}}}"#,
        ),
    ]);
    assert_eq!(texts(&events), vec!["Hel", "lo"]);
    assert_eq!(end(&events).unwrap().0, StopReason::EndTurn);
}

#[test]
fn function_call_accumulation() {
    let events = responses(&[
        ("response.created", r#"{"response":{"id":"resp_1","status":"in_progress"}}"#),
        (
            "response.output_item.added",
            r#"{"output_index":0,"item":{"type":"function_call","call_id":"call_1","name":"Bash","arguments":""}}"#,
        ),
        ("response.function_call_arguments.delta", r#"{"output_index":0,"delta":"{\"comm"}"#),
        (
            "response.function_call_arguments.delta",
            r#"{"output_index":0,"delta":"and\":[\"ls\"]}"}"#,
        ),
        (
            "response.output_item.done",
            r#"{"output_index":0,"item":{"type":"function_call","call_id":"call_1","name":"Bash","arguments":"{\"command\":[\"ls\"]}"}}"#,
        ),
        (
            "response.completed",
            r#"{"response":{"id":"resp_1","status":"completed","usage":{"input_tokens":5,"output_tokens":3,"output_tokens_details":{"reasoning_tokens":0}}}}"#,
        ),
    ]);
    assert_eq!(begun(&events), Some((CallId::new("call_1"), "Bash".to_owned())));
    assert_eq!(fragments(&events), r#"{"command":["ls"]}"#);
    assert!(events.iter().any(
        |e| matches!(e, ModelStreamEvent::ToolUseEnd { call_id } if call_id == &CallId::new("call_1"))
    ));
}

#[test]
fn reasoning_summary_mapped_to_thinking_delta() {
    let events = responses(&[
        ("response.created", r#"{"response":{"id":"resp_1","status":"in_progress"}}"#),
        (
            "response.reasoning_summary_text.delta",
            r#"{"output_index":0,"summary_index":0,"delta":"思考"}"#,
        ),
        (
            "response.output_item.added",
            r#"{"output_index":1,"item":{"type":"message","role":"assistant","id":"msg_1"}}"#,
        ),
        (
            "response.output_text.delta",
            r#"{"output_index":1,"content_index":0,"delta":"答案"}"#,
        ),
        (
            "response.output_item.done",
            r#"{"output_index":1,"item":{"type":"message","role":"assistant","id":"msg_1"}}"#,
        ),
        (
            "response.completed",
            r#"{"response":{"id":"resp_1","status":"completed","usage":{"input_tokens":1,"output_tokens":1,"output_tokens_details":{"reasoning_tokens":2}}}}"#,
        ),
    ]);
    assert!(events.iter().any(|e| matches!(e, ModelStreamEvent::ThinkingDelta(t) if t == "思考")));
    assert!(events.iter().any(|e| matches!(e, ModelStreamEvent::TextDelta(t) if t == "答案")));
    assert_eq!(end(&events).unwrap().1.reasoning, 2);
}

#[test]
fn store_false_in_request_body() {
    let call = plan(WireApi::OpenaiResponses, AnthropicAuth::ApiKey).call(&req()).unwrap();
    assert!(print(&call.body).contains("\"store\":false"));
    assert_eq!(call.url, "https://host/v1/responses");
}

#[test]
fn bearers_are_sent_as_such() {
    let call = plan(WireApi::Anthropic, AnthropicAuth::Bearer).call(&req()).unwrap();
    assert_eq!(
        call.headers[1],
        ("authorization".to_string(), "Bearer test-key".to_string())
    );
    let body = print(&call.body);
    assert!(body.contains("\"max_tokens\":1024"), "{body}");
    assert!(!body.contains("test-key"));
}

#[test]
fn open_calls_are_closed_at_the_end() {
    let events = responses(&[
        (
            "response.output_item.added",
            r#"{"output_index":0,"item":{"type":"function_call","call_id":"call_1","name":"Bash","arguments":""}}"#,
        ),
        (
            "response.completed",
            r#"{"response":{"id":"resp_1","status":"completed","usage":{"input_tokens":1,"output_tokens":1}}}"#,
        ),
    ]);
    assert_eq!(
        events.iter().filter(|e| matches!(e, ModelStreamEvent::ToolUseEnd { .. })).count(),
        1
    );
}

#[test]
fn calls_begin_once() {
    let first = r#"{"choices":[{"delta":{"tool_calls":[{"index":0,"id":"call_1","function":{"name":"Bash","arguments":""}}]},"index":0}]}"#;
    let events = chat(&[first, first]);
    assert_eq!(
        events.iter().filter(|e| matches!(e, ModelStreamEvent::ToolUseBegin { .. })).count(),
        1
    );
}

#[test]
fn requests_are_not_flattened() {
    let mut r = req();
    r.reasoning = Some(tao::content::ReasoningEffort::High);
    r.system[0].cache_breakpoint = Some(tao::model::CacheBreakpoint::Ephemeral);
    let body = print(&plan(WireApi::Anthropic, AnthropicAuth::ApiKey).call(&r).unwrap().body);
    assert!(body.contains("\"cache_control\":{\"type\":\"ephemeral\"}"), "{body}");
    assert!(body.contains("\"thinking\":{\"budget_tokens\":"), "{body}");
}

#[test]
fn messages_end_last() {
    let begin = r#"{"choices":[{"delta":{"tool_calls":[{"index":0,"id":"call_1","function":{"name":"Bash","arguments":""}}]},"index":0}]}"#;
    let finish = r#"{"choices":[{"delta":{},"finish_reason":"tool_calls","index":0}]}"#;
    let usage = r#"{"choices":[],"usage":{"prompt_tokens":5,"completion_tokens":3}}"#;
    let events = chat(&[begin, finish, usage]);
    assert!(matches!(
        &events[events.len() - 2..],
        [
            ModelStreamEvent::ToolUseEnd { call_id },
            ModelStreamEvent::MessageEnd { stop_reason: StopReason::ToolUse, usage }
        ] if call_id.as_str() == "call_1" && usage.input == 5 && usage.output == 3
    ));
    let events = responses(&[
        (
            "response.output_item.added",
            r#"{"output_index":0,"item":{"type":"function_call","call_id":"call_1","name":"Bash","arguments":""}}"#,
        ),
        ("response.completed", r#"{"response":{"id":"resp_1","status":"completed"}}"#),
    ]);
    assert!(matches!(events.last(), Some(ModelStreamEvent::MessageEnd { .. })));
}

#[test]
fn windows_of_models() {
    assert_eq!(context_window("glm-4"), 128_000);
    assert_eq!(context_window("other"), 200_000);
    assert_eq!(tao::providers::registry::context_window(WireApi::OpenaiChat, "glm-4"), 200_000);
    assert_eq!(tao::providers::registry::context_window(WireApi::Anthropic, "glm-4"), 128_000);
}
