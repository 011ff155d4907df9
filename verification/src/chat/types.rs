//! The small value types that chat messages carry: message content, tool
//! calls and legacy function calls, together with their mathematical views
//! and the per-item merge rules of the streaming protocol.

use vstd::prelude::*;

verus! {

/// The contents of a chat message: a text fragment.
#[derive(Debug, PartialEq, Eq)]
pub enum Content {
    Str(String),
}

impl Content {
    pub fn new_str(s: &str) -> (r: Content)
        ensures
            r@ == s@,
    {
        Content::Str(s.to_owned())
    }
}

impl View for Content {
    type V = Seq<char>;

    open spec fn view(&self) -> Seq<char> {
        match self {
            Content::Str(s) => s@,
        }
    }
}

impl DeepView for Content {
    type V = Seq<char>;

    open spec fn deep_view(&self) -> Seq<char> {
        self@
    }
}

impl Clone for Content {
    fn clone(&self) -> (r: Self)
        ensures
            r == *self,
    {
        match self {
            Content::Str(s) => Content::Str(s.clone()),
        }
    }
}

/// The function invoked by a tool call, with the full arguments seen so far.
#[derive(Debug, PartialEq, Eq)]
pub struct ToolCallFunction {
    pub name: String,
    pub arguments: String,
}

/// The view of a [`ToolCallFunction`].
pub ghost struct ToolCallFunctionView {
    pub name: Seq<char>,
    pub arguments: Seq<char>,
}

impl View for ToolCallFunction {
    type V = ToolCallFunctionView;

    open spec fn view(&self) -> ToolCallFunctionView {
        ToolCallFunctionView { name: self.name@, arguments: self.arguments@ }
    }
}

impl DeepView for ToolCallFunction {
    type V = ToolCallFunctionView;

    open spec fn deep_view(&self) -> ToolCallFunctionView {
        self@
    }
}

impl Clone for ToolCallFunction {
    fn clone(&self) -> (r: Self)
        ensures
            r == *self,
    {
        ToolCallFunction { name: self.name.clone(), arguments: self.arguments.clone() }
    }
}

/// A tool invocation requested by the assistant; `kind` is sent on the wire
/// as "type".
#[derive(Debug, PartialEq, Eq)]
pub struct ToolCall {
    pub id: String,
    pub kind: String,
    pub function: ToolCallFunction,
}

/// The view of a [`ToolCall`].
pub ghost struct ToolCallView {
    pub id: Seq<char>,
    pub kind: Seq<char>,
    pub function: ToolCallFunctionView,
}

impl View for ToolCall {
    type V = ToolCallView;

    open spec fn view(&self) -> ToolCallView {
        ToolCallView { id: self.id@, kind: self.kind@, function: self.function@ }
    }
}

impl DeepView for ToolCall {
    type V = ToolCallView;

    open spec fn deep_view(&self) -> ToolCallView {
        self@
    }
}

impl Clone for ToolCall {
    fn clone(&self) -> (r: Self)
        ensures
            r == *self,
    {
        ToolCall { id: self.id.clone(), kind: self.kind.clone(), function: self.function.clone() }
    }
}

/// One streamed tool call merged into an accumulated one: the argument
/// fragments are concatenated, everything else keeps the accumulated value.
pub open spec fn spec_merge_tool_call(a: ToolCallView, b: ToolCallView) -> ToolCallView {
    ToolCallView {
        function: ToolCallFunctionView {
            arguments: a.function.arguments + b.function.arguments,
            ..a.function
        },
        ..a
    }
}

impl ToolCall {
    /// Merges a streamed fragment of the same tool call into this one by
    /// appending its argument fragment.
    pub fn merge(&mut self, other: &ToolCall)
        ensures
            final(self)@ == spec_merge_tool_call(old(self)@, other@),
    {
        self.function.arguments.append(other.function.arguments.as_str());
    }
}

/// The function that the model called, with defaults filled in.
#[derive(Debug, PartialEq, Eq)]
pub struct ChatCompletionFunctionCall {
    pub name: String,
    pub arguments: String,
}

/// The view of a [`ChatCompletionFunctionCall`].
pub ghost struct FunctionCallView {
    pub name: Seq<char>,
    pub arguments: Seq<char>,
}

impl View for ChatCompletionFunctionCall {
    type V = FunctionCallView;

    open spec fn view(&self) -> FunctionCallView {
        FunctionCallView { name: self.name@, arguments: self.arguments@ }
    }
}

impl DeepView for ChatCompletionFunctionCall {
    type V = FunctionCallView;

    open spec fn deep_view(&self) -> FunctionCallView {
        self@
    }
}

impl Clone for ChatCompletionFunctionCall {
    fn clone(&self) -> (r: Self)
        ensures
            r == *self,
    {
        ChatCompletionFunctionCall { name: self.name.clone(), arguments: self.arguments.clone() }
    }
}

/// A streamed fragment of a function call: any subset of its fields.
#[derive(Debug, PartialEq, Eq)]
pub struct ChatCompletionFunctionCallDelta {
    pub name: Option<String>,
    pub arguments: Option<String>,
}

/// The view of a [`ChatCompletionFunctionCallDelta`].
pub ghost struct FunctionCallDeltaView {
    pub name: Option<Seq<char>>,
    pub arguments: Option<Seq<char>>,
}

impl View for ChatCompletionFunctionCallDelta {
    type V = FunctionCallDeltaView;

    open spec fn view(&self) -> FunctionCallDeltaView {
        FunctionCallDeltaView { name: self.name.deep_view(), arguments: self.arguments.deep_view() }
    }
}

impl DeepView for ChatCompletionFunctionCallDelta {
    type V = FunctionCallDeltaView;

    open spec fn deep_view(&self) -> FunctionCallDeltaView {
        self@
    }
}

impl Clone for ChatCompletionFunctionCallDelta {
    fn clone(&self) -> (r: Self)
        ensures
            r == *self,
    {
        let r = ChatCompletionFunctionCallDelta {
            name: self.name.clone(),
            arguments: self.arguments.clone(),
        };
        proof {
            assert(r.name == self.name);
            assert(r.arguments == self.arguments);
        }
        r
    }
}

/// Optional text fragments merged append-only: both present concatenates,
/// one present adopts it, neither stays absent.
pub open spec fn spec_merge_optional_text(a: Option<Seq<char>>, b: Option<Seq<char>>) -> Option<
    Seq<char>,
> {
    match (a, b) {
        (Some(x), Some(y)) => Some(x + y),
        (None, y) => y,
        (x, None) => x,
    }
}

/// One streamed function-call fragment merged into an accumulated one:
/// the name is first-write-wins, the arguments are append-only.
pub open spec fn spec_merge_function_call(a: FunctionCallDeltaView, b: FunctionCallDeltaView)
    -> FunctionCallDeltaView {
    FunctionCallDeltaView {
        name: if a.name is None {
            b.name
        } else {
            a.name
        },
        arguments: spec_merge_optional_text(a.arguments, b.arguments),
    }
}

} // verus!
