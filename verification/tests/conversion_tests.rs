use openai::chat::ChatCompletionMessageRole;
use openai::chat::modules::ChatCompletion;
use openai::chat::modules::ChatCompletionChoiceDelta;
use openai::chat::modules::ChatCompletionDelta;
use openai::chat::modules::ChatCompletionMessage;
use openai::chat::modules::ChatCompletionMessageDelta;
use openai::chat::types::ChatCompletionFunctionCallDelta;
use openai::chat::types::Content;
use openai::Usage;

fn merged_delta() -> ChatCompletionDelta {
    ChatCompletionDelta {
        id: "chatcmpl-9".to_string(),
        object: "chat.completion.chunk".to_string(),
        created: 42,
        model: "gpt-4o".to_string(),
        choices: vec![ChatCompletionChoiceDelta {
            index: 0,
            finish_reason: Some("stop".to_string()),
            delta: ChatCompletionMessageDelta {
                role: Some(ChatCompletionMessageRole::Assistant),
                content: Some(Content::new_str("Hello!")),
                name: None,
                function_call: None,
                tool_call_id: None,
                tool_calls: None,
            },
        }],
        usage: Some(Usage {
            prompt_tokens: 1,
            completion_tokens: 2,
            total_tokens: 3,
        }),
    }
}

#[test]
fn conversion_idempotent() {
    let delta = merged_delta();
    let once = ChatCompletion::from_delta(delta.clone());
    let twice = ChatCompletion::from_delta(delta);
    assert_eq!(once, twice);
}

#[test]
fn conversion_copies_envelope_fields() {
    let completion = ChatCompletion::from_delta(merged_delta());
    assert_eq!(completion.id, "chatcmpl-9");
    assert_eq!(completion.object, "chat.completion.chunk");
    assert_eq!(completion.created, 42);
    assert_eq!(completion.model, "gpt-4o");
    assert_eq!(
        completion.usage,
        Some(Usage {
            prompt_tokens: 1,
            completion_tokens: 2,
            total_tokens: 3,
        })
    );
    assert_eq!(completion.choices.len(), 1);
    let choice = &completion.choices[0];
    assert_eq!(choice.index, 0);
    assert_eq!(choice.finish_reason, "stop");
    assert_eq!(choice.message.role, ChatCompletionMessageRole::Assistant);
    assert_eq!(choice.message.content, Some(Content::new_str("Hello!")));
}

#[test]
fn conversion_fills_defaults() {
    let mut delta = merged_delta();
    delta.choices[0].finish_reason = None;
    delta.choices[0].delta.role = None;
    delta.choices[0].delta.content = None;
    delta.choices[0].delta.function_call = Some(ChatCompletionFunctionCallDelta {
        name: None,
        arguments: None,
    });
    let completion = ChatCompletion::from_delta(delta);
    let choice = &completion.choices[0];
    // an incomplete stream shows as an empty finish reason, not a crash
    assert_eq!(choice.finish_reason, "");
    // a streamed message that never carried a role is the assistant's
    assert_eq!(choice.message.role, ChatCompletionMessageRole::Assistant);
    // absent content stays absent
    assert_eq!(choice.message.content, None);
    let call = choice.message.function_call.as_ref().unwrap();
    assert_eq!(call.name, "");
    assert_eq!(call.arguments, "");
}

#[test]
fn message_conversion_passes_fields_through() {
    let delta = ChatCompletionMessageDelta {
        role: Some(ChatCompletionMessageRole::Tool),
        content: Some(Content::new_str("done")),
        name: Some("alice".to_string()),
        function_call: None,
        tool_call_id: Some("call_3".to_string()),
        tool_calls: None,
    };
    let message = ChatCompletionMessage::from_delta(delta);
    assert_eq!(message.role, ChatCompletionMessageRole::Tool);
    assert_eq!(message.content, Some(Content::new_str("done")));
    assert_eq!(message.name, Some("alice".to_string()));
    assert_eq!(message.function_call, None);
    assert_eq!(message.tool_call_id, Some("call_3".to_string()));
    assert_eq!(message.tool_calls, None);
}
