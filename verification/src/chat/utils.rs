//! The payload side of the stream adapter: each framed event's `data`
//! text is parsed as JSON and decoded into a delta envelope, mirroring
//! the wire shape field by field. A payload that fails to parse or does
//! not fit the shape yields nothing, and the adapter skips that event;
//! one bad event never aborts the stream.
//!
//! The wire shape is stated as spec functions over the JSON model of
//! [`crate::json`], and every decoding function is proved to return
//! exactly what those spec functions say of its payload's model.

use vstd::prelude::*;

use crate::Usage;
use crate::chat::ChatCompletionMessageRole;
use crate::chat::modules::ChatCompletionChoiceDelta;
use crate::chat::modules::ChatCompletionDelta;
use crate::chat::modules::ChatCompletionMessageDelta;
use crate::chat::modules::ChoiceDeltaView;
use crate::chat::modules::EnvelopeView;
use crate::chat::modules::MessageDeltaView;
use crate::chat::types::ChatCompletionFunctionCallDelta;
use crate::chat::types::Content;
use crate::chat::types::FunctionCallDeltaView;
use crate::chat::types::ToolCall;
use crate::chat::types::ToolCallFunction;
use crate::chat::types::ToolCallFunctionView;
use crate::chat::types::ToolCallView;
use crate::json::JsonModel;
use crate::json::parse_json;
use crate::json::spec_model_of;
use crate::json::spec_parsed_json;
use crate::json::value_as_array;
use crate::json::value_as_str;
use crate::json::value_as_u64;
use crate::json::value_get;
use crate::json::value_is_null;
use crate::json::value_is_object;
use crate::str_eq;

verus! {

/// The role a wire name stands for; an unknown name is no role.
pub open spec fn spec_role_of(s: Seq<char>) -> Option<ChatCompletionMessageRole> {
    if s == "system"@ {
        Some(ChatCompletionMessageRole::System)
    } else if s == "user"@ {
        Some(ChatCompletionMessageRole::User)
    } else if s == "assistant"@ {
        Some(ChatCompletionMessageRole::Assistant)
    } else if s == "function"@ {
        Some(ChatCompletionMessageRole::Function)
    } else if s == "tool"@ {
        Some(ChatCompletionMessageRole::Tool)
    } else if s == "developer"@ {
        Some(ChatCompletionMessageRole::Developer)
    } else {
        None
    }
}

/// Decodes a role from its wire name.
fn role_from_str(s: &str) -> (r: Option<ChatCompletionMessageRole>)
    ensures
        r == spec_role_of(s@),
{
    if str_eq(s, "system") {
        Some(ChatCompletionMessageRole::System)
    } else if str_eq(s, "user") {
        Some(ChatCompletionMessageRole::User)
    } else if str_eq(s, "assistant") {
        Some(ChatCompletionMessageRole::Assistant)
    } else if str_eq(s, "function") {
        Some(ChatCompletionMessageRole::Function)
    } else if str_eq(s, "tool") {
        Some(ChatCompletionMessageRole::Tool)
    } else if str_eq(s, "developer") {
        Some(ChatCompletionMessageRole::Developer)
    } else {
        None
    }
}

// --- the wire shape, as spec functions over the JSON model ---

/// The member of an object under a key; nothing when the value is no
/// object or has no such member.
pub open spec fn spec_member(m: JsonModel, key: Seq<char>) -> Option<JsonModel> {
    match m {
        JsonModel::Obj(fields) => if fields.contains_key(key) {
            Some(fields[key])
        } else {
            None
        },
        _ => None,
    }
}

/// A member counted present only when it is there and not null.
pub open spec fn spec_present(m: JsonModel, key: Seq<char>) -> Option<JsonModel> {
    match spec_member(m, key) {
        Some(JsonModel::Null) => None,
        other => other,
    }
}

/// An optional string member: absent or null is no value, a string is
/// its text, anything else is a shape error (the outer None).
pub open spec fn spec_opt_string(m: JsonModel, key: Seq<char>) -> Option<Option<Seq<char>>> {
    match spec_present(m, key) {
        None => Some(None),
        Some(JsonModel::Str(s)) => Some(Some(s)),
        Some(_) => None,
    }
}

/// A required string member: anything but a string is a shape error.
pub open spec fn spec_req_string(m: JsonModel, key: Seq<char>) -> Option<Seq<char>> {
    match spec_member(m, key) {
        Some(JsonModel::Str(s)) => Some(s),
        _ => None,
    }
}

/// A required unsigned integer member.
pub open spec fn spec_req_u64(m: JsonModel, key: Seq<char>) -> Option<u64> {
    match spec_member(m, key) {
        Some(JsonModel::Num(n)) => n,
        _ => None,
    }
}

/// A required token count, which must fit u32.
pub open spec fn spec_req_u32(m: JsonModel, key: Seq<char>) -> Option<u32> {
    match spec_req_u64(m, key) {
        Some(x) => if x <= u32::MAX {
            Some(x as u32)
        } else {
            None
        },
        None => None,
    }
}

/// A string member that may be left out entirely, defaulting to the
/// empty string; a present member must still be a string.
pub open spec fn spec_defaulted_string(m: JsonModel, key: Seq<char>) -> Option<Seq<char>> {
    match spec_member(m, key) {
        None => Some(Seq::<char>::empty()),
        Some(JsonModel::Str(s)) => Some(s),
        Some(_) => None,
    }
}

/// An unsigned integer member that may be left out, defaulting to zero.
pub open spec fn spec_defaulted_u64(m: JsonModel, key: Seq<char>) -> Option<u64> {
    match spec_member(m, key) {
        None => Some(0),
        Some(JsonModel::Num(Some(x))) => Some(x),
        Some(_) => None,
    }
}

/// The token-accounting object of a terminal event: three counts.
pub open spec fn spec_decode_usage(m: JsonModel) -> Option<Usage> {
    if !(m is Obj) {
        None
    } else {
        match (
            spec_req_u32(m, "prompt_tokens"@),
            spec_req_u32(m, "completion_tokens"@),
            spec_req_u32(m, "total_tokens"@),
        ) {
            (Some(prompt_tokens), Some(completion_tokens), Some(total_tokens)) => Some(
                Usage { prompt_tokens, completion_tokens, total_tokens },
            ),
            _ => None,
        }
    }
}

/// One tool call: its id, its kind (sent as "type") and its function,
/// every field required.
pub open spec fn spec_decode_tool_call(m: JsonModel) -> Option<ToolCallView> {
    if !(m is Obj) {
        None
    } else {
        match (spec_req_string(m, "id"@), spec_req_string(m, "type"@), spec_member(m, "function"@)) {
            (Some(id), Some(kind), Some(f)) => if !(f is Obj) {
                None
            } else {
                match (spec_req_string(f, "name"@), spec_req_string(f, "arguments"@)) {
                    (Some(name), Some(arguments)) => Some(
                        ToolCallView { id, kind, function: ToolCallFunctionView { name, arguments } },
                    ),
                    _ => None,
                }
            },
            _ => None,
        }
    }
}

/// A list of tool calls: every element must decode, in order.
pub open spec fn spec_decode_tool_calls(elems: Seq<JsonModel>) -> Option<Seq<ToolCallView>> {
    if forall|i: int| 0 <= i < elems.len() ==> spec_decode_tool_call(#[trigger] elems[i]) is Some {
        Some(Seq::new(elems.len(), |i: int| spec_decode_tool_call(elems[i]).unwrap()))
    } else {
        None
    }
}

/// A streamed function-call fragment: an optional name and optional
/// argument text.
pub open spec fn spec_decode_function_call(m: JsonModel) -> Option<FunctionCallDeltaView> {
    if !(m is Obj) {
        None
    } else {
        match (spec_opt_string(m, "name"@), spec_opt_string(m, "arguments"@)) {
            (Some(name), Some(arguments)) => Some(FunctionCallDeltaView { name, arguments }),
            _ => None,
        }
    }
}

/// A streamed message fragment: an object whose fields may all be
/// absent; a role must be a known role name, content a text fragment,
/// tool calls a list of complete tool calls.
pub open spec fn spec_decode_message_delta(m: JsonModel) -> Option<MessageDeltaView> {
    if !(m is Obj) {
        None
    } else {
        let role = match spec_present(m, "role"@) {
            None => Some(None),
            Some(JsonModel::Str(s)) => match spec_role_of(s) {
                Some(role) => Some(Some(role)),
                None => None,
            },
            Some(_) => None,
        };
        let function_call = match spec_present(m, "function_call"@) {
            None => Some(None),
            Some(f) => match spec_decode_function_call(f) {
                Some(fc) => Some(Some(fc)),
                None => None,
            },
        };
        let tool_calls = match spec_present(m, "tool_calls"@) {
            None => Some(None),
            Some(JsonModel::Arr(elems)) => match spec_decode_tool_calls(elems) {
                Some(ts) => Some(Some(ts)),
                None => None,
            },
            Some(_) => None,
        };
        match (
            role,
            spec_opt_string(m, "content"@),
            spec_opt_string(m, "name"@),
            function_call,
            spec_opt_string(m, "tool_call_id"@),
            tool_calls,
        ) {
            (
                Some(role),
                Some(content),
                Some(name),
                Some(function_call),
                Some(tool_call_id),
                Some(tool_calls),
            ) => Some(
                MessageDeltaView { role, content, name, function_call, tool_call_id, tool_calls },
            ),
            _ => None,
        }
    }
}

/// One streamed choice: a required slot index, an optional finish
/// reason, and a required message fragment.
pub open spec fn spec_decode_choice(m: JsonModel) -> Option<ChoiceDeltaView> {
    if !(m is Obj) {
        None
    } else {
        match (
            spec_req_u64(m, "index"@),
            spec_opt_string(m, "finish_reason"@),
            spec_member(m, "delta"@),
        ) {
            (Some(index), Some(finish_reason), Some(d)) => match spec_decode_message_delta(d) {
                Some(delta) => Some(ChoiceDeltaView { index, finish_reason, delta }),
                None => None,
            },
            _ => None,
        }
    }
}

/// A list of streamed choices: every element must decode, in order.
pub open spec fn spec_decode_choices(elems: Seq<JsonModel>) -> Option<Seq<ChoiceDeltaView>> {
    if forall|i: int| 0 <= i < elems.len() ==> spec_decode_choice(#[trigger] elems[i]) is Some {
        Some(Seq::new(elems.len(), |i: int| spec_decode_choice(elems[i]).unwrap()))
    } else {
        None
    }
}

/// A whole delta envelope. An event need not repeat the envelope's
/// descriptive fields: a missing id, object or model defaults to the
/// empty string and a missing timestamp to zero. The choice list is
/// required; usage is optional.
pub open spec fn spec_decode_envelope_model(m: JsonModel) -> Option<
    EnvelopeView<ChoiceDeltaView>,
> {
    if !(m is Obj) {
        None
    } else {
        let choices = match spec_member(m, "choices"@) {
            Some(JsonModel::Arr(elems)) => spec_decode_choices(elems),
            _ => None,
        };
        let usage = match spec_present(m, "usage"@) {
            None => Some(None),
            Some(u) => match spec_decode_usage(u) {
                Some(x) => Some(Some(x)),
                None => None,
            },
        };
        match (
            spec_defaulted_string(m, "id"@),
            spec_defaulted_string(m, "object"@),
            spec_defaulted_u64(m, "created"@),
            spec_defaulted_string(m, "model"@),
            choices,
            usage,
        ) {
            (Some(id), Some(object), Some(created), Some(model), Some(choices), Some(usage)) =>
                Some(EnvelopeView { id, object, created, model, choices, usage }),
            _ => None,
        }
    }
}

/// What one framed event's payload decodes to: the envelope of its
/// parsed JSON, or nothing when the text does not parse or does not fit
/// the wire shape.
pub open spec fn spec_decode_envelope(parsed: Option<JsonModel>) -> Option<
    EnvelopeView<ChoiceDeltaView>,
> {
    match parsed {
        Some(m) => spec_decode_envelope_model(m),
        None => None,
    }
}

// --- the decoders, each proved against its spec function ---

/// An optional string member, as [`spec_opt_string`] says.
fn opt_string_field(v: &serde_json::Value, key: &str) -> (r: Result<Option<String>, ()>)
    ensures
        match spec_opt_string(spec_model_of(*v), key@) {
            Some(o) => r matches Ok(x) && x.deep_view() == o,
            None => r is Err,
        },
{
    match value_get(v, key) {
        None => Ok(None),
        Some(f) => {
            if value_is_null(f) {
                Ok(None)
            } else {
                match value_as_str(f) {
                    Some(s) => Ok(Some(s.to_owned())),
                    None => Err(()),
                }
            }
        },
    }
}

/// A required string member, as [`spec_req_string`] says.
fn req_string_field(v: &serde_json::Value, key: &str) -> (r: Option<String>)
    ensures
        match spec_req_string(spec_model_of(*v), key@) {
            Some(s) => r matches Some(t) && t@ == s,
            None => r is None,
        },
{
    match value_get(v, key) {
        Some(f) => match value_as_str(f) {
            Some(s) => Some(s.to_owned()),
            None => None,
        },
        None => None,
    }
}

/// A required unsigned integer member, as [`spec_req_u64`] says.
fn req_u64_field(v: &serde_json::Value, key: &str) -> (r: Option<u64>)
    ensures
        r == spec_req_u64(spec_model_of(*v), key@),
{
    match value_get(v, key) {
        Some(f) => value_as_u64(f),
        None => None,
    }
}

/// A required token count, as [`spec_req_u32`] says.
fn req_u32_field(v: &serde_json::Value, key: &str) -> (r: Option<u32>)
    ensures
        r == spec_req_u32(spec_model_of(*v), key@),
{
    match req_u64_field(v, key) {
        Some(x) => if x <= u32::MAX as u64 {
            Some(x as u32)
        } else {
            None
        },
        None => None,
    }
}

/// A string member with an empty-string default, as
/// [`spec_defaulted_string`] says.
fn defaulted_string_field(v: &serde_json::Value, key: &str) -> (r: Option<String>)
    ensures
        match spec_defaulted_string(spec_model_of(*v), key@) {
            Some(s) => r matches Some(t) && t@ == s,
            None => r is None,
        },
{
    match value_get(v, key) {
        None => Some(String::new()),
        Some(f) => match value_as_str(f) {
            Some(s) => Some(s.to_owned()),
            None => None,
        },
    }
}

/// Decodes the token-accounting object of a terminal event.
fn decode_usage(v: &serde_json::Value) -> (r: Option<Usage>)
    ensures
        r == spec_decode_usage(spec_model_of(*v)),
{
    if !value_is_object(v) {
        return None;
    }
    let prompt_tokens = match req_u32_field(v, "prompt_tokens") {
        Some(x) => x,
        None => {
            return None;
        },
    };
    let completion_tokens = match req_u32_field(v, "completion_tokens") {
        Some(x) => x,
        None => {
            return None;
        },
    };
    let total_tokens = match req_u32_field(v, "total_tokens") {
        Some(x) => x,
        None => {
            return None;
        },
    };
    Some(Usage { prompt_tokens, completion_tokens, total_tokens })
}

/// Decodes one tool call; every field of one is sent on each fragment.
fn decode_tool_call(v: &serde_json::Value) -> (r: Option<ToolCall>)
    ensures
        r.deep_view() == spec_decode_tool_call(spec_model_of(*v)),
{
    if !value_is_object(v) {
        return None;
    }
    let id = match req_string_field(v, "id") {
        Some(s) => s,
        None => {
            return None;
        },
    };
    let kind = match req_string_field(v, "type") {
        Some(s) => s,
        None => {
            return None;
        },
    };
    let f = match value_get(v, "function") {
        Some(f) => f,
        None => {
            return None;
        },
    };
    if !value_is_object(f) {
        return None;
    }
    let name = match req_string_field(f, "name") {
        Some(s) => s,
        None => {
            return None;
        },
    };
    let arguments = match req_string_field(f, "arguments") {
        Some(s) => s,
        None => {
            return None;
        },
    };
    let r = Some(ToolCall { id, kind, function: ToolCallFunction { name, arguments } });
    proof {
        assert(r.deep_view() =~= spec_decode_tool_call(spec_model_of(*v)));
    }
    r
}

/// Decodes a streamed function-call fragment.
fn decode_function_call_delta(v: &serde_json::Value) -> (r: Option<
    ChatCompletionFunctionCallDelta,
>)
    ensures
        r.deep_view() == spec_decode_function_call(spec_model_of(*v)),
{
    if !value_is_object(v) {
        return None;
    }
    let name = match opt_string_field(v, "name") {
        Ok(x) => x,
        Err(()) => {
            return None;
        },
    };
    let arguments = match opt_string_field(v, "arguments") {
        Ok(x) => x,
        Err(()) => {
            return None;
        },
    };
    let r = Some(ChatCompletionFunctionCallDelta { name, arguments });
    proof {
        assert(r.deep_view() =~= spec_decode_function_call(spec_model_of(*v)));
    }
    r
}

/// Decodes a list of tool calls, element by element.
fn decode_tool_calls(items: &Vec<serde_json::Value>, Ghost(elems): Ghost<Seq<JsonModel>>) -> (r:
    Option<Vec<ToolCall>>)
    requires
        items@.len() == elems.len(),
        forall|k: int| 0 <= k < elems.len() ==> spec_model_of(#[trigger] items@[k]) == elems[k],
    ensures
        match spec_decode_tool_calls(elems) {
            Some(ts) => r matches Some(calls) && calls.deep_view() == ts,
            None => r is None,
        },
{
    let mut calls: Vec<ToolCall> = Vec::new();
    let n = items.len();
    let mut i: usize = 0;
    while i < n
        invariant
            i <= n,
            n == items@.len(),
            items@.len() == elems.len(),
            forall|k: int| 0 <= k < elems.len() ==> spec_model_of(#[trigger] items@[k])
                == elems[k],
            forall|k: int| 0 <= k < i ==> spec_decode_tool_call(#[trigger] elems[k]) is Some,
            calls@.len() == i,
            forall|k: int| 0 <= k < i ==> calls@[k]@ == spec_decode_tool_call(elems[k]).unwrap(),
        decreases n - i,
    {
        match decode_tool_call(&items[i]) {
            Some(t) => calls.push(t),
            None => {
                proof {
                    assert(spec_decode_tool_call(elems[i as int]) is None);
                }
                return None;
            },
        }
        i += 1;
    }
    proof {
        assert(calls.deep_view() =~= Seq::new(
            elems.len(),
            |k: int| spec_decode_tool_call(elems[k]).unwrap(),
        ));
    }
    Some(calls)
}

/// Decodes a streamed message fragment; every field may be absent.
fn decode_message_delta(v: &serde_json::Value) -> (r: Option<ChatCompletionMessageDelta>)
    ensures
        r.deep_view() == spec_decode_message_delta(spec_model_of(*v)),
{
    if !value_is_object(v) {
        return None;
    }
    let role = match value_get(v, "role") {
        None => None,
        Some(f) => {
            if value_is_null(f) {
                None
            } else {
                match value_as_str(f) {
                    Some(s) => match role_from_str(s) {
                        Some(role) => Some(role),
                        None => {
                            return None;
                        },
                    },
                    None => {
                        return None;
                    },
                }
            }
        },
    };
    let content = match opt_string_field(v, "content") {
        Ok(Some(s)) => Some(Content::Str(s)),
        Ok(None) => None,
        Err(()) => {
            return None;
        },
    };
    let name = match opt_string_field(v, "name") {
        Ok(x) => x,
        Err(()) => {
            return None;
        },
    };
    let function_call = match value_get(v, "function_call") {
        None => None,
        Some(f) => {
            if value_is_null(f) {
                None
            } else {
                match decode_function_call_delta(f) {
                    Some(fc) => Some(fc),
                    None => {
                        return None;
                    },
                }
            }
        },
    };
    let tool_call_id = match opt_string_field(v, "tool_call_id") {
        Ok(x) => x,
        Err(()) => {
            return None;
        },
    };
    let tool_calls = match value_get(v, "tool_calls") {
        None => None,
        Some(f) => {
            if value_is_null(f) {
                None
            } else {
                match value_as_array(f) {
                    Some(items) => {
                        let ghost elems = (match spec_model_of(*f) {
                            JsonModel::Arr(e) => e,
                            _ => Seq::<JsonModel>::empty(),
                        });
                        match decode_tool_calls(items, Ghost(elems)) {
                            Some(calls) => Some(calls),
                            None => {
                                return None;
                            },
                        }
                    },
                    None => {
                        return None;
                    },
                }
            }
        },
    };
    let r = Some(
        ChatCompletionMessageDelta { role, content, name, function_call, tool_call_id, tool_calls },
    );
    proof {
        assert(r.deep_view() =~= spec_decode_message_delta(spec_model_of(*v)));
    }
    r
}

/// Decodes one streamed choice: its slot index, an optional finish
/// reason, and the message fragment.
fn decode_choice_delta(v: &serde_json::Value) -> (r: Option<ChatCompletionChoiceDelta>)
    ensures
        r.deep_view() == spec_decode_choice(spec_model_of(*v)),
{
    if !value_is_object(v) {
        return None;
    }
    let index = match req_u64_field(v, "index") {
        Some(x) => x,
        None => {
            return None;
        },
    };
    let finish_reason = match opt_string_field(v, "finish_reason") {
        Ok(x) => x,
        Err(()) => {
            return None;
        },
    };
    let delta = match value_get(v, "delta") {
        Some(f) => match decode_message_delta(f) {
            Some(d) => d,
            None => {
                return None;
            },
        },
        None => {
            return None;
        },
    };
    let r = Some(ChatCompletionChoiceDelta { index, finish_reason, delta });
    proof {
        assert(r.deep_view() =~= spec_decode_choice(spec_model_of(*v)));
    }
    r
}

/// Decodes the list of streamed choices, element by element.
fn decode_choices(items: &Vec<serde_json::Value>, Ghost(elems): Ghost<Seq<JsonModel>>) -> (r:
    Option<Vec<ChatCompletionChoiceDelta>>)
    requires
        items@.len() == elems.len(),
        forall|k: int| 0 <= k < elems.len() ==> spec_model_of(#[trigger] items@[k]) == elems[k],
    ensures
        match spec_decode_choices(elems) {
            Some(cs) => r matches Some(choices) && choices.deep_view() == cs,
            None => r is None,
        },
{
    let mut choices: Vec<ChatCompletionChoiceDelta> = Vec::new();
    let n = items.len();
    let mut i: usize = 0;
    while i < n
        invariant
            i <= n,
            n == items@.len(),
            items@.len() == elems.len(),
            forall|k: int| 0 <= k < elems.len() ==> spec_model_of(#[trigger] items@[k])
                == elems[k],
            forall|k: int| 0 <= k < i ==> spec_decode_choice(#[trigger] elems[k]) is Some,
            choices@.len() == i,
            forall|k: int| 0 <= k < i ==> choices@[k]@ == spec_decode_choice(elems[k]).unwrap(),
        decreases n - i,
    {
        match decode_choice_delta(&items[i]) {
            Some(c) => choices.push(c),
            None => {
                proof {
                    assert(spec_decode_choice(elems[i as int]) is None);
                }
                return None;
            },
        }
        i += 1;
    }
    proof {
        assert(choices.deep_view() =~= Seq::new(
            elems.len(),
            |k: int| spec_decode_choice(elems[k]).unwrap(),
        ));
    }
    Some(choices)
}

/// Decodes a whole delta envelope, as [`spec_decode_envelope_model`]
/// says of its model.
fn decode_delta_envelope(v: &serde_json::Value) -> (r: Option<ChatCompletionDelta>)
    ensures
        r.deep_view() == spec_decode_envelope_model(spec_model_of(*v)),
{
    if !value_is_object(v) {
        return None;
    }
    let id = match defaulted_string_field(v, "id") {
        Some(s) => s,
        None => {
            return None;
        },
    };
    let object = match defaulted_string_field(v, "object") {
        Some(s) => s,
        None => {
            return None;
        },
    };
    let created = match value_get(v, "created") {
        None => 0,
        Some(f) => match value_as_u64(f) {
            Some(x) => x,
            None => {
                return None;
            },
        },
    };
    let model = match defaulted_string_field(v, "model") {
        Some(s) => s,
        None => {
            return None;
        },
    };
    let choices = match value_get(v, "choices") {
        Some(f) => match value_as_array(f) {
            Some(items) => {
                let ghost elems = (match spec_model_of(*f) {
                    JsonModel::Arr(e) => e,
                    _ => Seq::<JsonModel>::empty(),
                });
                match decode_choices(items, Ghost(elems)) {
                    Some(cs) => cs,
                    None => {
                        return None;
                    },
                }
            },
            None => {
                return None;
            },
        },
        None => {
            return None;
        },
    };
    let usage = match value_get(v, "usage") {
        None => None,
        Some(f) => {
            if value_is_null(f) {
                None
            } else {
                match decode_usage(f) {
                    Some(u) => Some(u),
                    None => {
                        return None;
                    },
                }
            }
        },
    };
    let r = Some(ChatCompletionDelta { id, object, created, model, choices, usage });
    proof {
        assert(r.deep_view() =~= spec_decode_envelope_model(spec_model_of(*v)));
    }
    r
}

/// Decodes one framed event's data payload into a delta envelope,
/// returning exactly what [`spec_decode_envelope`] says of the
/// payload's parsed JSON. A payload that is not JSON, or not the shape
/// of a delta envelope, yields nothing: the stream adapter logs and
/// skips such an event and the stream goes on. The `[DONE]` sentinel is
/// no valid payload, so it too yields nothing; the transport closing is
/// what ends a stream.
pub fn parse_delta_payload(payload: &str) -> (r: Option<ChatCompletionDelta>)
    ensures
        r.deep_view() == spec_decode_envelope(spec_parsed_json(payload@)),
{
    match parse_json(payload) {
        Some(v) => decode_delta_envelope(&v),
        None => None,
    }
}

} // verus!
