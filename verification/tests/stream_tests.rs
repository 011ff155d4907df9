use openai::chat::modules::ChatCompletionDelta;
use openai::chat::modules::CompletionAccumulationError;
use openai::chat::modules::drain_to_completion;
use openai::chat::types::Content;
use openai::chat::utils::parse_delta_payload;

#[test]
fn malformed_event_skipped() {
    let events = [
        r#"{"id":"x","choices":[{"index":0,"delta":{"content":"Hel"}}]}"#,
        "not valid json",
        r#"{"id":"x","choices":[{"index":0,"delta":{"content":"lo"}}]}"#,
    ];
    let forwarded: Vec<ChatCompletionDelta> =
        events.iter().filter_map(|e| parse_delta_payload(e)).collect();
    assert_eq!(forwarded.len(), 2);
    let completion = drain_to_completion(forwarded).unwrap();
    assert_eq!(
        completion.choices[0].message.content,
        Some(Content::new_str("Hello"))
    );
}

#[test]
fn empty_stream_is_error() {
    let result = drain_to_completion(vec![]);
    assert_eq!(result, Err(CompletionAccumulationError::EmptyStream));
}

#[test]
fn drain_surfaces_id_mismatch() {
    let a = parse_delta_payload(r#"{"id":"A","choices":[{"index":0,"delta":{"content":"x"}}]}"#)
        .unwrap();
    let b = parse_delta_payload(r#"{"id":"B","choices":[{"index":0,"delta":{"content":"y"}}]}"#)
        .unwrap();
    let result = drain_to_completion(vec![a, b]);
    assert_eq!(
        result,
        Err(CompletionAccumulationError::Merge(
            openai::chat::ChatCompletionDeltaMergeError::DifferentCompletionIds
        ))
    );
}

#[test]
fn parse_full_payload_fields() {
    let payload = r#"{
        "id": "chatcmpl-123",
        "object": "chat.completion.chunk",
        "created": 1700000000,
        "model": "gpt-3.5-turbo",
        "choices": [
            {
                "index": 2,
                "finish_reason": "stop",
                "delta": {
                    "role": "assistant",
                    "content": "Hi",
                    "tool_call_id": "call_9"
                }
            }
        ],
        "usage": {"prompt_tokens": 3, "completion_tokens": 5, "total_tokens": 8}
    }"#;
    let delta = parse_delta_payload(payload).unwrap();
    assert_eq!(delta.id, "chatcmpl-123");
    assert_eq!(delta.object, "chat.completion.chunk");
    assert_eq!(delta.created, 1700000000);
    assert_eq!(delta.model, "gpt-3.5-turbo");
    assert_eq!(delta.choices.len(), 1);
    let choice = &delta.choices[0];
    assert_eq!(choice.index, 2);
    assert_eq!(choice.finish_reason, Some("stop".to_string()));
    assert_eq!(
        choice.delta.role,
        Some(openai::chat::ChatCompletionMessageRole::Assistant)
    );
    assert_eq!(choice.delta.content, Some(Content::new_str("Hi")));
    assert_eq!(choice.delta.tool_call_id, Some("call_9".to_string()));
    let usage = delta.usage.unwrap();
    assert_eq!(usage.prompt_tokens, 3);
    assert_eq!(usage.completion_tokens, 5);
    assert_eq!(usage.total_tokens, 8);
}

#[test]
fn parse_tool_call_payload() {
    let payload = r#"{
        "id": "x",
        "choices": [
            {
                "index": 0,
                "delta": {
                    "tool_calls": [
                        {
                            "id": "call_1",
                            "type": "function",
                            "function": {"name": "mul", "arguments": "{\"a\":3}"}
                        }
                    ]
                }
            }
        ]
    }"#;
    let delta = parse_delta_payload(payload).unwrap();
    let calls = delta.choices[0].delta.tool_calls.as_ref().unwrap();
    assert_eq!(calls.len(), 1);
    assert_eq!(calls[0].id, "call_1");
    assert_eq!(calls[0].kind, "function");
    assert_eq!(calls[0].function.name, "mul");
    assert_eq!(calls[0].function.arguments, "{\"a\":3}");
}

#[test]
fn parse_function_call_fragment() {
    let payload = r#"{
        "id": "x",
        "choices": [
            {"index": 0, "delta": {"function_call": {"arguments": "{\"q\":"}}}
        ]
    }"#;
    let delta = parse_delta_payload(payload).unwrap();
    let call = delta.choices[0].delta.function_call.as_ref().unwrap();
    assert_eq!(call.name, None);
    assert_eq!(call.arguments, Some("{\"q\":".to_string()));
}

#[test]
fn parse_rejects_bad_shapes() {
    assert!(parse_delta_payload("[DONE]").is_none());
    assert!(parse_delta_payload("").is_none());
    // no choices at all
    assert!(parse_delta_payload(r#"{"id":"x"}"#).is_none());
    // choices is not an array
    assert!(parse_delta_payload(r#"{"id":"x","choices":7}"#).is_none());
    // a choice without an index
    assert!(parse_delta_payload(r#"{"id":"x","choices":[{"delta":{}}]}"#).is_none());
    // a fractional index
    assert!(
        parse_delta_payload(r#"{"id":"x","choices":[{"index":0.5,"delta":{}}]}"#).is_none()
    );
    // content of the wrong type
    assert!(parse_delta_payload(
        r#"{"id":"x","choices":[{"index":0,"delta":{"content":17}}]}"#
    )
    .is_none());
    // an unknown role name
    assert!(parse_delta_payload(
        r#"{"id":"x","choices":[{"index":0,"delta":{"role":"oracle"}}]}"#
    )
    .is_none());
    // a tool call without an id
    assert!(parse_delta_payload(
        r#"{"id":"x","choices":[{"index":0,"delta":{"tool_calls":[{"type":"function","function":{"name":"f","arguments":""}}]}}]}"#
    )
    .is_none());
    // a token count too large for u32
    assert!(parse_delta_payload(
        r#"{"id":"x","choices":[],"usage":{"prompt_tokens":4294967296,"completion_tokens":0,"total_tokens":0}}"#
    )
    .is_none());
    // a non-string id
    assert!(parse_delta_payload(r#"{"id":5,"choices":[]}"#).is_none());
    // the envelope itself must be an object
    assert!(parse_delta_payload("[1,2,3]").is_none());
    // a delta that is not an object
    assert!(
        parse_delta_payload(r#"{"id":"x","choices":[{"index":0,"delta":"hi"}]}"#).is_none()
    );
    // a function_call that is not an object
    assert!(parse_delta_payload(
        r#"{"id":"x","choices":[{"index":0,"delta":{"function_call":"f"}}]}"#
    )
    .is_none());
    // a tool call list holding a non-object
    assert!(parse_delta_payload(
        r#"{"id":"x","choices":[{"index":0,"delta":{"tool_calls":[7]}}]}"#
    )
    .is_none());
}

#[test]
fn parse_accepts_null_optionals() {
    let payload = r#"{
        "id": "x",
        "usage": null,
        "choices": [
            {"index": 0, "finish_reason": null, "delta": {"role": null, "content": null}}
        ]
    }"#;
    let delta = parse_delta_payload(payload).unwrap();
    assert_eq!(delta.usage, None);
    assert_eq!(delta.choices[0].finish_reason, None);
    assert_eq!(delta.choices[0].delta.role, None);
    assert_eq!(delta.choices[0].delta.content, None);
}
