use openai::chat::ChatCompletionDeltaMergeError;
use openai::chat::ChatCompletionMessageRole;
use openai::chat::modules::ChatCompletionChoiceDelta;
use openai::chat::modules::ChatCompletionDelta;
use openai::chat::modules::ChatCompletionMessageDelta;
use openai::chat::types::ChatCompletionFunctionCallDelta;
use openai::chat::types::Content;
use openai::chat::types::ToolCall;
use openai::chat::types::ToolCallFunction;

fn delta_message(content: Option<&str>) -> ChatCompletionMessageDelta {
    ChatCompletionMessageDelta {
        role: None,
        content: content.map(Content::new_str),
        name: None,
        function_call: None,
        tool_call_id: None,
        tool_calls: None,
    }
}

fn delta_envelope(id: &str, index: u64, content: Option<&str>) -> ChatCompletionDelta {
    ChatCompletionDelta {
        id: id.to_string(),
        object: "chat.completion.chunk".to_string(),
        created: 1,
        model: "gpt-3.5-turbo".to_string(),
        choices: vec![ChatCompletionChoiceDelta {
            index,
            finish_reason: None,
            delta: delta_message(content),
        }],
        usage: None,
    }
}

fn tool_call(arguments: &str) -> ToolCall {
    ToolCall {
        id: "call_1".to_string(),
        kind: "function".to_string(),
        function: ToolCallFunction {
            name: "mul".to_string(),
            arguments: arguments.to_string(),
        },
    }
}

#[test]
fn content_order_preserved() {
    let mut acc = delta_envelope("x", 0, Some("Hel"));
    acc.merge(delta_envelope("x", 0, Some("lo,"))).unwrap();
    acc.merge(delta_envelope("x", 0, Some(" world"))).unwrap();
    assert_eq!(
        acc.choices[0].delta.content,
        Some(Content::new_str("Hello, world"))
    );
}

#[test]
fn id_mismatch_detected() {
    let mut acc = delta_envelope("A", 0, Some("kept"));
    let before = acc.clone();
    let result = acc.merge(delta_envelope("B", 0, Some("lost")));
    assert_eq!(
        result,
        Err(ChatCompletionDeltaMergeError::DifferentCompletionIds)
    );
    assert_eq!(acc, before);
}

#[test]
fn choice_index_mismatch_detected() {
    let mut acc = ChatCompletionChoiceDelta {
        index: 0,
        finish_reason: None,
        delta: delta_message(Some("a")),
    };
    let incoming = ChatCompletionChoiceDelta {
        index: 1,
        finish_reason: None,
        delta: delta_message(Some("b")),
    };
    let result = acc.merge(&incoming);
    assert_eq!(
        result,
        Err(ChatCompletionDeltaMergeError::DifferentCompletionChoiceIndices)
    );
    assert_eq!(acc.delta.content, Some(Content::new_str("a")));
}

#[test]
fn unmatched_choice_index_dropped() {
    let mut acc = delta_envelope("x", 0, Some("kept"));
    let mut incoming = delta_envelope("x", 1, Some("dropped"));
    incoming.choices[0].index = 1;
    acc.merge(incoming).unwrap();
    assert_eq!(acc.choices.len(), 1);
    assert_eq!(acc.choices[0].index, 0);
    assert_eq!(acc.choices[0].delta.content, Some(Content::new_str("kept")));
}

#[test]
fn tool_call_arguments_concatenated() {
    let mut acc = delta_envelope("x", 0, None);
    acc.choices[0].delta.tool_calls = Some(vec![tool_call("ab")]);
    let mut incoming = delta_envelope("x", 0, None);
    incoming.choices[0].delta.tool_calls = Some(vec![tool_call("cd")]);
    acc.merge(incoming).unwrap();
    let calls = acc.choices[0].delta.tool_calls.as_ref().unwrap();
    assert_eq!(calls.len(), 1);
    assert_eq!(calls[0].function.arguments, "abcd");
}

#[test]
fn tool_calls_adopted_when_absent_or_empty() {
    let mut acc = delta_envelope("x", 0, None);
    let mut incoming = delta_envelope("x", 0, None);
    incoming.choices[0].delta.tool_calls = Some(vec![tool_call("ab")]);
    acc.merge(incoming).unwrap();
    assert_eq!(
        acc.choices[0].delta.tool_calls.as_ref().unwrap()[0]
            .function
            .arguments,
        "ab"
    );

    let mut acc = delta_envelope("x", 0, None);
    acc.choices[0].delta.tool_calls = Some(vec![]);
    let mut incoming = delta_envelope("x", 0, None);
    incoming.choices[0].delta.tool_calls = Some(vec![tool_call("cd")]);
    acc.merge(incoming).unwrap();
    assert_eq!(
        acc.choices[0].delta.tool_calls.as_ref().unwrap()[0]
            .function
            .arguments,
        "cd"
    );
}

#[test]
fn trailing_incoming_tool_calls_dropped() {
    let mut acc = delta_envelope("x", 0, None);
    acc.choices[0].delta.tool_calls = Some(vec![tool_call("a")]);
    let mut incoming = delta_envelope("x", 0, None);
    incoming.choices[0].delta.tool_calls = Some(vec![tool_call("b"), tool_call("extra")]);
    acc.merge(incoming).unwrap();
    let calls = acc.choices[0].delta.tool_calls.as_ref().unwrap();
    assert_eq!(calls.len(), 1);
    assert_eq!(calls[0].function.arguments, "ab");
}

#[test]
fn role_first_write_wins() {
    let mut acc = delta_envelope("x", 0, None);
    assert_eq!(acc.choices[0].delta.role, None);
    let mut first = delta_envelope("x", 0, None);
    first.choices[0].delta.role = Some(ChatCompletionMessageRole::Assistant);
    let mut second = delta_envelope("x", 0, None);
    second.choices[0].delta.role = Some(ChatCompletionMessageRole::User);
    acc.merge(first).unwrap();
    acc.merge(second).unwrap();
    assert_eq!(
        acc.choices[0].delta.role,
        Some(ChatCompletionMessageRole::Assistant)
    );
}

#[test]
fn name_and_tool_call_id_first_write_wins() {
    let mut acc = delta_message(None);
    let mut first = delta_message(None);
    first.name = Some("alice".to_string());
    first.tool_call_id = Some("call_7".to_string());
    let mut second = delta_message(None);
    second.name = Some("bob".to_string());
    second.tool_call_id = Some("call_8".to_string());
    acc.merge(&first);
    acc.merge(&second);
    assert_eq!(acc.name, Some("alice".to_string()));
    assert_eq!(acc.tool_call_id, Some("call_7".to_string()));
}

#[test]
fn finish_reason_one_shot() {
    let mut acc = delta_envelope("x", 0, Some("Hi"));
    let first = delta_envelope("x", 0, Some(" there"));
    let mut second = delta_envelope("x", 0, None);
    second.choices[0].finish_reason = Some("stop".to_string());
    let mut third = delta_envelope("x", 0, None);
    third.choices[0].finish_reason = Some("length".to_string());
    acc.merge(first).unwrap();
    assert_eq!(acc.choices[0].finish_reason, None);
    acc.merge(second).unwrap();
    assert_eq!(acc.choices[0].finish_reason, Some("stop".to_string()));
    acc.merge(third).unwrap();
    assert_eq!(acc.choices[0].finish_reason, Some("stop".to_string()));
}

#[test]
fn function_call_merge_policy() {
    let mut acc = delta_message(None);
    let mut first = delta_message(None);
    first.function_call = Some(ChatCompletionFunctionCallDelta {
        name: Some("get_weather".to_string()),
        arguments: Some("{\"loc".to_string()),
    });
    let mut second = delta_message(None);
    second.function_call = Some(ChatCompletionFunctionCallDelta {
        name: Some("other_name".to_string()),
        arguments: Some("ation\":\"Boston\"}".to_string()),
    });
    acc.merge(&first);
    acc.merge(&second);
    let call = acc.function_call.as_ref().unwrap();
    assert_eq!(call.name, Some("get_weather".to_string()));
    assert_eq!(
        call.arguments,
        Some("{\"location\":\"Boston\"}".to_string())
    );
}

#[test]
fn content_adopted_when_absent() {
    let mut acc = delta_envelope("x", 0, None);
    acc.merge(delta_envelope("x", 0, Some("adopted"))).unwrap();
    assert_eq!(
        acc.choices[0].delta.content,
        Some(Content::new_str("adopted"))
    );
    acc.merge(delta_envelope("x", 0, None)).unwrap();
    assert_eq!(
        acc.choices[0].delta.content,
        Some(Content::new_str("adopted"))
    );
}

#[test]
fn tool_call_merge_appends_arguments() {
    let mut call = tool_call("lhs-");
    call.merge(&tool_call("rhs"));
    assert_eq!(call.function.arguments, "lhs-rhs");
    assert_eq!(call.id, "call_1");
    assert_eq!(call.kind, "function");
    assert_eq!(call.function.name, "mul");
}
