//! The completion envelope, its choices and messages, and the streaming
//! delta protocol: merging a stream of partial deltas into one accumulated
//! delta, and converting the result into a full completion.
//!
//! The merge policy, field by field: scalar identity fields (role, name,
//! tool_call_id, finish_reason, function-call name) are first-write-wins;
//! text (content, function-call and tool-call arguments) is append-only;
//! tool calls are merged positionally against the accumulated list.

use vstd::prelude::*;

use crate::Usage;
use crate::chat::ChatCompletionDeltaMergeError;
use crate::chat::ChatCompletionMessageRole;
use crate::chat::types::ChatCompletionFunctionCall;
use crate::chat::types::ChatCompletionFunctionCallDelta;
use crate::chat::types::Content;
use crate::chat::types::FunctionCallDeltaView;
use crate::chat::types::FunctionCallView;
use crate::chat::types::ToolCall;
use crate::chat::types::ToolCallView;
use crate::chat::types::spec_merge_function_call;
use crate::chat::types::spec_merge_optional_text;
use crate::chat::types::spec_merge_tool_call;

verus! {

/// A buffered chat completion.
pub type ChatCompletion = ChatCompletionGeneric<ChatCompletionChoice>;

/// A delta chat completion, which is streamed token by token.
pub type ChatCompletionDelta = ChatCompletionGeneric<ChatCompletionChoiceDelta>;

/// The completion envelope, generic over the shape of one choice.
#[derive(Debug, PartialEq, Eq)]
pub struct ChatCompletionGeneric<C> {
    pub id: String,
    pub object: String,
    pub created: u64,
    pub model: String,
    pub choices: Vec<C>,
    pub usage: Option<Usage>,
}

/// The view of a [`ChatCompletionGeneric`], generic over the choice view.
#[verifier::ext_equal]
pub ghost struct EnvelopeView<CV> {
    pub id: Seq<char>,
    pub object: Seq<char>,
    pub created: u64,
    pub model: Seq<char>,
    pub choices: Seq<CV>,
    pub usage: Option<Usage>,
}

impl<C: DeepView> View for ChatCompletionGeneric<C> {
    type V = EnvelopeView<<C as DeepView>::V>;

    open spec fn view(&self) -> EnvelopeView<<C as DeepView>::V> {
        EnvelopeView {
            id: self.id@,
            object: self.object@,
            created: self.created,
            model: self.model@,
            choices: self.choices.deep_view(),
            usage: self.usage,
        }
    }
}

impl<C: DeepView> DeepView for ChatCompletionGeneric<C> {
    type V = EnvelopeView<<C as DeepView>::V>;

    open spec fn deep_view(&self) -> EnvelopeView<<C as DeepView>::V> {
        self@
    }
}

/// One finished choice of a buffered completion.
#[derive(Debug, PartialEq, Eq)]
pub struct ChatCompletionChoice {
    pub index: u64,
    pub finish_reason: String,
    pub message: ChatCompletionMessage,
}

/// The view of a [`ChatCompletionChoice`].
#[verifier::ext_equal]
pub ghost struct ChoiceView {
    pub index: u64,
    pub finish_reason: Seq<char>,
    pub message: MessageView,
}

impl View for ChatCompletionChoice {
    type V = ChoiceView;

    open spec fn view(&self) -> ChoiceView {
        ChoiceView {
            index: self.index,
            finish_reason: self.finish_reason@,
            message: self.message@,
        }
    }
}

impl DeepView for ChatCompletionChoice {
    type V = ChoiceView;

    open spec fn deep_view(&self) -> ChoiceView {
        self@
    }
}

/// One choice of a streamed delta: the same slot as a full choice, but the
/// message is a partial fragment and the finish reason may still be absent.
#[derive(Debug, PartialEq, Eq)]
pub struct ChatCompletionChoiceDelta {
    pub index: u64,
    pub finish_reason: Option<String>,
    pub delta: ChatCompletionMessageDelta,
}

/// The view of a [`ChatCompletionChoiceDelta`].
#[verifier::ext_equal]
pub ghost struct ChoiceDeltaView {
    pub index: u64,
    pub finish_reason: Option<Seq<char>>,
    pub delta: MessageDeltaView,
}

impl View for ChatCompletionChoiceDelta {
    type V = ChoiceDeltaView;

    open spec fn view(&self) -> ChoiceDeltaView {
        ChoiceDeltaView {
            index: self.index,
            finish_reason: self.finish_reason.deep_view(),
            delta: self.delta@,
        }
    }
}

impl DeepView for ChatCompletionChoiceDelta {
    type V = ChoiceDeltaView;

    open spec fn deep_view(&self) -> ChoiceDeltaView {
        self@
    }
}

/// A full chat message.
#[derive(Debug, PartialEq, Eq)]
pub struct ChatCompletionMessage {
    /// The role of the author of this message.
    pub role: ChatCompletionMessageRole,
    /// The contents of the message; absent when the turn is a pure tool
    /// invocation.
    pub content: Option<Content>,
    /// The name of the user in a multi-user chat.
    pub name: Option<String>,
    /// The legacy single function call that the model made, if any.
    pub function_call: Option<ChatCompletionFunctionCall>,
    /// The tool call this message responds to; required for the tool role.
    pub tool_call_id: Option<String>,
    /// The tool calls the assistant requests, in order.
    pub tool_calls: Option<Vec<ToolCall>>,
}

/// The view of a [`ChatCompletionMessage`].
#[verifier::ext_equal]
pub ghost struct MessageView {
    pub role: ChatCompletionMessageRole,
    pub content: Option<Seq<char>>,
    pub name: Option<Seq<char>>,
    pub function_call: Option<FunctionCallView>,
    pub tool_call_id: Option<Seq<char>>,
    pub tool_calls: Option<Seq<ToolCallView>>,
}

impl View for ChatCompletionMessage {
    type V = MessageView;

    open spec fn view(&self) -> MessageView {
        MessageView {
            role: self.role,
            content: self.content.deep_view(),
            name: self.name.deep_view(),
            function_call: self.function_call.deep_view(),
            tool_call_id: self.tool_call_id.deep_view(),
            tool_calls: self.tool_calls.deep_view(),
        }
    }
}

impl DeepView for ChatCompletionMessage {
    type V = MessageView;

    open spec fn deep_view(&self) -> MessageView {
        self@
    }
}

/// Same as [`ChatCompletionMessage`], but received during a response
/// stream: every field is a partial fragment and may be absent.
#[derive(Debug, PartialEq, Eq)]
pub struct ChatCompletionMessageDelta {
    pub role: Option<ChatCompletionMessageRole>,
    pub content: Option<Content>,
    pub name: Option<String>,
    pub function_call: Option<ChatCompletionFunctionCallDelta>,
    pub tool_call_id: Option<String>,
    pub tool_calls: Option<Vec<ToolCall>>,
}

/// The view of a [`ChatCompletionMessageDelta`].
#[verifier::ext_equal]
pub ghost struct MessageDeltaView {
    pub role: Option<ChatCompletionMessageRole>,
    pub content: Option<Seq<char>>,
    pub name: Option<Seq<char>>,
    pub function_call: Option<FunctionCallDeltaView>,
    pub tool_call_id: Option<Seq<char>>,
    pub tool_calls: Option<Seq<ToolCallView>>,
}

impl View for ChatCompletionMessageDelta {
    type V = MessageDeltaView;

    open spec fn view(&self) -> MessageDeltaView {
        MessageDeltaView {
            role: self.role,
            content: self.content.deep_view(),
            name: self.name.deep_view(),
            function_call: self.function_call.deep_view(),
            tool_call_id: self.tool_call_id.deep_view(),
            tool_calls: self.tool_calls.deep_view(),
        }
    }
}

impl DeepView for ChatCompletionMessageDelta {
    type V = MessageDeltaView;

    open spec fn deep_view(&self) -> MessageDeltaView {
        self@
    }
}

/// A list of messages of a stored chat completion, with pagination marks.
#[derive(Debug, PartialEq, Eq)]
pub struct ChatCompletionMessages {
    pub data: Vec<ChatCompletionMessage>,
    pub object: String,
    pub first_id: Option<String>,
    pub last_id: Option<String>,
    pub has_more: bool,
}

// --- cloning, with the contracts verification needs ---

/// Clones a list of tool calls, keeping its view.
fn clone_tool_calls(v: &Vec<ToolCall>) -> (r: Vec<ToolCall>)
    ensures
        r.deep_view() == v.deep_view(),
{
    let mut r: Vec<ToolCall> = Vec::new();
    let n = v.len();
    let mut i: usize = 0;
    while i < n
        invariant
            i <= n,
            n == v.len(),
            r.deep_view().len() == i,
            forall|k: int| 0 <= k < i ==> r.deep_view()[k] == v.deep_view()[k],
        decreases n - i,
    {
        r.push(v[i].clone());
        i += 1;
    }
    proof {
        assert(r.deep_view() =~= v.deep_view());
    }
    r
}

/// Clones an optional list of tool calls, keeping its view.
fn clone_opt_tool_calls(v: &Option<Vec<ToolCall>>) -> (r: Option<Vec<ToolCall>>)
    ensures
        r.deep_view() == v.deep_view(),
{
    match v {
        Some(ts) => Some(clone_tool_calls(ts)),
        None => None,
    }
}

impl Clone for ChatCompletionMessageDelta {
    fn clone(&self) -> (r: Self)
        ensures
            r@ == self@,
    {
        let r = ChatCompletionMessageDelta {
            role: self.role,
            content: self.content.clone(),
            name: self.name.clone(),
            function_call: self.function_call.clone(),
            tool_call_id: self.tool_call_id.clone(),
            tool_calls: clone_opt_tool_calls(&self.tool_calls),
        };
        proof {
            assert(r.content == self.content);
            assert(r.name == self.name);
            assert(r.function_call == self.function_call);
            assert(r.tool_call_id == self.tool_call_id);
            assert(r@ =~= self@);
        }
        r
    }
}

impl Clone for ChatCompletionChoiceDelta {
    fn clone(&self) -> (r: Self)
        ensures
            r@ == self@,
    {
        let r = ChatCompletionChoiceDelta {
            index: self.index,
            finish_reason: self.finish_reason.clone(),
            delta: self.delta.clone(),
        };
        proof {
            assert(r.finish_reason == self.finish_reason);
            assert(r@ =~= self@);
        }
        r
    }
}

impl Clone for ChatCompletionMessage {
    fn clone(&self) -> (r: Self)
        ensures
            r@ == self@,
    {
        let r = ChatCompletionMessage {
            role: self.role,
            content: self.content.clone(),
            name: self.name.clone(),
            function_call: self.function_call.clone(),
            tool_call_id: self.tool_call_id.clone(),
            tool_calls: clone_opt_tool_calls(&self.tool_calls),
        };
        proof {
            assert(r.content == self.content);
            assert(r.name == self.name);
            assert(r.function_call == self.function_call);
            assert(r.tool_call_id == self.tool_call_id);
            assert(r@ =~= self@);
        }
        r
    }
}

impl Clone for ChatCompletionChoice {
    fn clone(&self) -> (r: Self)
        ensures
            r@ == self@,
    {
        let r = ChatCompletionChoice {
            index: self.index,
            finish_reason: self.finish_reason.clone(),
            message: self.message.clone(),
        };
        proof {
            assert(r@ =~= self@);
        }
        r
    }
}

impl Clone for ChatCompletionDelta {
    fn clone(&self) -> (r: Self)
        ensures
            r@ == self@,
    {
        let mut choices: Vec<ChatCompletionChoiceDelta> = Vec::new();
        let n = self.choices.len();
        let mut i: usize = 0;
        while i < n
            invariant
                i <= n,
                n == self.choices.len(),
                choices@.len() == i,
                forall|k: int| 0 <= k < i ==> choices@[k]@ == self.choices@[k]@,
            decreases n - i,
        {
            choices.push(self.choices[i].clone());
            i += 1;
        }
        let r = ChatCompletionDelta {
            id: self.id.clone(),
            object: self.object.clone(),
            created: self.created,
            model: self.model.clone(),
            choices,
            usage: self.usage,
        };
        proof {
            assert(r.choices.deep_view() =~= self.choices.deep_view());
            assert(r@ =~= self@);
        }
        r
    }
}

impl Clone for ChatCompletion {
    fn clone(&self) -> (r: Self)
        ensures
            r@ == self@,
    {
        let mut choices: Vec<ChatCompletionChoice> = Vec::new();
        let n = self.choices.len();
        let mut i: usize = 0;
        while i < n
            invariant
                i <= n,
                n == self.choices.len(),
                choices@.len() == i,
                forall|k: int| 0 <= k < i ==> choices@[k]@ == self.choices@[k]@,
            decreases n - i,
        {
            choices.push(self.choices[i].clone());
            i += 1;
        }
        let r = ChatCompletion {
            id: self.id.clone(),
            object: self.object.clone(),
            created: self.created,
            model: self.model.clone(),
            choices,
            usage: self.usage,
        };
        proof {
            assert(r.choices.deep_view() =~= self.choices.deep_view());
            assert(r@ =~= self@);
        }
        r
    }
}

// --- the merge policy, as spec functions over views ---

/// Tool-call lists merged positionally: the accumulated list keeps its
/// length and each entry absorbs the incoming entry at the same position;
/// an absent or empty accumulated list adopts the incoming one wholesale.
pub open spec fn spec_merge_tool_calls(
    a: Option<Seq<ToolCallView>>,
    b: Option<Seq<ToolCallView>>,
) -> Option<Seq<ToolCallView>> {
    match (a, b) {
        (a, None) => a,
        (None, Some(bs)) => Some(bs),
        (Some(az), Some(bs)) => if az.len() == 0 {
            Some(bs)
        } else {
            Some(
                Seq::new(
                    az.len(),
                    |i: int|
                        if i < bs.len() {
                            spec_merge_tool_call(az[i], bs[i])
                        } else {
                            az[i]
                        },
                ),
            )
        },
    }
}

/// One streamed message fragment merged into an accumulated one.
pub open spec fn spec_merge_message(a: MessageDeltaView, b: MessageDeltaView) -> MessageDeltaView {
    MessageDeltaView {
        role: if a.role is None {
            b.role
        } else {
            a.role
        },
        content: spec_merge_optional_text(a.content, b.content),
        name: if a.name is None {
            b.name
        } else {
            a.name
        },
        function_call: match (a.function_call, b.function_call) {
            (Some(f), Some(g)) => Some(spec_merge_function_call(f, g)),
            (None, g) => g,
            (f, None) => f,
        },
        tool_call_id: if a.tool_call_id is None {
            b.tool_call_id
        } else {
            a.tool_call_id
        },
        tool_calls: spec_merge_tool_calls(a.tool_calls, b.tool_calls),
    }
}

/// One streamed choice merged into the accumulated choice of the same
/// index: the finish reason is one-shot, the message fragment is merged.
pub open spec fn spec_merge_choice(a: ChoiceDeltaView, b: ChoiceDeltaView) -> ChoiceDeltaView {
    ChoiceDeltaView {
        index: a.index,
        finish_reason: if a.finish_reason is None {
            b.finish_reason
        } else {
            a.finish_reason
        },
        delta: spec_merge_message(a.delta, b.delta),
    }
}

/// An accumulated choice after absorbing, in order, every incoming choice
/// that carries its index; incoming choices with other indices pass it by.
pub open spec fn spec_choice_after(c: ChoiceDeltaView, bs: Seq<ChoiceDeltaView>) -> ChoiceDeltaView
    decreases bs.len(),
{
    if bs.len() == 0 {
        c
    } else {
        let prev = spec_choice_after(c, bs.drop_last());
        if bs.last().index == c.index {
            spec_merge_choice(prev, bs.last())
        } else {
            prev
        }
    }
}

/// One streamed envelope merged into the accumulated one: each accumulated
/// choice absorbs the incoming choices of its index; incoming choices whose
/// index matches no accumulated slot are dropped, and the envelope's own
/// fields keep their accumulated values.
pub open spec fn spec_merge_envelope(
    a: EnvelopeView<ChoiceDeltaView>,
    b: EnvelopeView<ChoiceDeltaView>,
) -> EnvelopeView<ChoiceDeltaView> {
    EnvelopeView {
        choices: Seq::new(a.choices.len(), |i: int| spec_choice_after(a.choices[i], b.choices)),
        ..a
    }
}

/// Absorbing choices never changes a choice's index.
pub proof fn lemma_choice_after_index(c: ChoiceDeltaView, bs: Seq<ChoiceDeltaView>)
    ensures
        spec_choice_after(c, bs).index == c.index,
    decreases bs.len(),
{
    if bs.len() > 0 {
        lemma_choice_after_index(c, bs.drop_last());
    }
}

// --- the merge engine ---

impl ChatCompletionMessageDelta {
    /// Merges one streamed message fragment into this accumulated one:
    /// role, name and tool_call_id are first-write-wins, content and
    /// function-call arguments append, tool calls merge positionally.
    pub fn merge(&mut self, other: &ChatCompletionMessageDelta)
        ensures
            final(self)@ == spec_merge_message(old(self)@, other@),
    {
        if self.role.is_none() {
            self.role = other.role;
        }
        if self.name.is_none() {
            if let Some(n) = &other.name {
                self.name = Some(n.clone());
            }
        }
        if self.tool_call_id.is_none() {
            if let Some(t) = &other.tool_call_id {
                self.tool_call_id = Some(t.clone());
            }
        }
        if let Some(Content::Str(incoming)) = &other.content {
            let joined = match &self.content {
                Some(Content::Str(existing)) => {
                    let mut s = existing.clone();
                    s.append(incoming.as_str());
                    s
                },
                None => incoming.clone(),
            };
            self.content = Some(Content::Str(joined));
        }
        if let Some(g) = &other.function_call {
            let merged_call = match &self.function_call {
                Some(f) => {
                    let name = if f.name.is_none() {
                        g.name.clone()
                    } else {
                        f.name.clone()
                    };
                    let arguments = match (&f.arguments, &g.arguments) {
                        (Some(x), Some(y)) => {
                            let mut s = x.clone();
                            s.append(y.as_str());
                            Some(s)
                        },
                        (None, Some(y)) => Some(y.clone()),
                        (Some(x), None) => Some(x.clone()),
                        (None, None) => None,
                    };
                    ChatCompletionFunctionCallDelta { name, arguments }
                },
                None => g.clone(),
            };
            self.function_call = Some(merged_call);
        }
        if let Some(incoming) = &other.tool_calls {
            let adopt = match &self.tool_calls {
                None => true,
                Some(existing) => existing.len() == 0,
            };
            if adopt {
                self.tool_calls = Some(clone_tool_calls(incoming));
            } else if let Some(existing) = &self.tool_calls {
                let mut merged: Vec<ToolCall> = Vec::new();
                let n = existing.len();
                let mut i: usize = 0;
                while i < n
                    invariant
                        i <= n,
                        n == existing.len(),
                        merged@.len() == i,
                        forall|k: int| 0 <= k < i ==> merged@[k]@ == (if k < incoming@.len() {
                            spec_merge_tool_call(existing@[k]@, incoming@[k]@)
                        } else {
                            existing@[k]@
                        }),
                    decreases n - i,
                {
                    if i < incoming.len() {
                        let mut t = existing[i].clone();
                        t.merge(&incoming[i]);
                        merged.push(t);
                    } else {
                        merged.push(existing[i].clone());
                    }
                    i += 1;
                }
                proof {
                    assert(merged.deep_view() =~= spec_merge_tool_calls(
                        old(self)@.tool_calls,
                        other@.tool_calls,
                    ).unwrap());
                }
                self.tool_calls = Some(merged);
            }
        }
        proof {
            assert(self@ =~= spec_merge_message(old(self)@, other@));
        }
    }
}

impl ChatCompletionChoiceDelta {
    /// Merges one streamed choice into this accumulated choice of the same
    /// index; on an index mismatch nothing is changed and the merge fails.
    pub fn merge(&mut self, other: &ChatCompletionChoiceDelta) -> (r: Result<
        (),
        ChatCompletionDeltaMergeError,
    >)
        ensures
            old(self).index == other.index ==> r is Ok && final(self)@ == spec_merge_choice(
                old(self)@,
                other@,
            ),
            old(self).index != other.index ==> r == Err::<(), ChatCompletionDeltaMergeError>(
                ChatCompletionDeltaMergeError::DifferentCompletionChoiceIndices,
            ) && *final(self) == *old(self),
    {
        if self.index != other.index {
            return Err(ChatCompletionDeltaMergeError::DifferentCompletionChoiceIndices);
        }
        if self.finish_reason.is_none() {
            if let Some(fr) = &other.finish_reason {
                self.finish_reason = Some(fr.clone());
            }
        }
        self.delta.merge(&other.delta);
        proof {
            assert(self@ =~= spec_merge_choice(old(self)@, other@));
        }
        Ok(())
    }
}

impl ChatCompletionDelta {
    /// Merges one streamed envelope into this accumulated one. A delta
    /// from a different completion stream (another id) fails the merge and
    /// leaves the accumulator untouched; incoming choices whose index has
    /// no accumulated slot are dropped.
    pub fn merge(&mut self, other: ChatCompletionDelta) -> (r: Result<
        (),
        ChatCompletionDeltaMergeError,
    >)
        ensures
            old(self)@.id == other@.id ==> r is Ok && final(self)@ == spec_merge_envelope(
                old(self)@,
                other@,
            ),
            old(self)@.id != other@.id ==> r == Err::<(), ChatCompletionDeltaMergeError>(
                ChatCompletionDeltaMergeError::DifferentCompletionIds,
            ) && *final(self) == *old(self),
    {
        if !(self.id == other.id) {
            return Err(ChatCompletionDeltaMergeError::DifferentCompletionIds);
        }
        let ghost orig = *self;
        let mut new_choices: Vec<ChatCompletionChoiceDelta> = Vec::new();
        let n = self.choices.len();
        let mut i: usize = 0;
        while i < n
            invariant
                i <= n,
                n == self.choices.len(),
                *self == orig,
                new_choices@.len() == i,
                forall|k: int| 0 <= k < i ==> new_choices@[k]@ == spec_choice_after(
                    self.choices@[k]@,
                    other@.choices,
                ),
            decreases n - i,
        {
            let mut c = self.choices[i].clone();
            let ghost c0 = c@;
            let m = other.choices.len();
            let mut j: usize = 0;
            while j < m
                invariant
                    j <= m,
                    m == other.choices.len(),
                    c@.index == c0.index,
                    c@ == spec_choice_after(c0, other@.choices.take(j as int)),
                decreases m - j,
            {
                let oc = &other.choices[j];
                proof {
                    assert(other@.choices.take(j + 1).drop_last() =~= other@.choices.take(
                        j as int,
                    ));
                    assert(other@.choices[j as int] == oc@);
                }
                if c.index == oc.index {
                    let merged = c.merge(oc);
                    proof {
                        assert(merged is Ok);
                    }
                }
                j += 1;
            }
            proof {
                assert(other@.choices.take(m as int) =~= other@.choices);
            }
            new_choices.push(c);
            i += 1;
        }
        self.choices = new_choices;
        proof {
            assert(self@.choices =~= spec_merge_envelope(orig@, other@).choices);
            assert(self@ =~= spec_merge_envelope(orig@, other@));
        }
        Ok(())
    }
}

// --- the conversion layer: delta shapes to full shapes ---

/// Whether an optional list is absent or empty.
pub fn is_none_or_empty_vec<T>(opt: &Option<Vec<T>>) -> (r: bool)
    ensures
        r == match opt {
            Some(v) => v@.len() == 0,
            None => true,
        },
{
    match opt {
        Some(v) => v.len() == 0,
        None => true,
    }
}

/// The string itself, or the empty string when absent.
fn clone_default_unwrapped_option_string(string: &Option<String>) -> (r: String)
    ensures
        r@ == match string.deep_view() {
            Some(s) => s,
            None => Seq::<char>::empty(),
        },
{
    match string {
        Some(value) => value.clone(),
        None => String::new(),
    }
}

/// A function-call fragment converted totally: a missing name or missing
/// arguments becomes the empty string.
pub open spec fn spec_full_function_call(d: FunctionCallDeltaView) -> FunctionCallView {
    FunctionCallView {
        name: match d.name {
            Some(n) => n,
            None => Seq::<char>::empty(),
        },
        arguments: match d.arguments {
            Some(a) => a,
            None => Seq::<char>::empty(),
        },
    }
}

/// A delta message converted to a full message: a missing role defaults to
/// the assistant, the content stays as it is (absent stays absent), the
/// function call is filled with defaults, the rest is passed through.
pub open spec fn spec_full_message(d: MessageDeltaView) -> MessageView {
    MessageView {
        role: match d.role {
            Some(role) => role,
            None => ChatCompletionMessageRole::Assistant,
        },
        content: d.content,
        name: d.name,
        function_call: match d.function_call {
            Some(f) => Some(spec_full_function_call(f)),
            None => None,
        },
        tool_call_id: d.tool_call_id,
        tool_calls: d.tool_calls,
    }
}

/// A delta choice converted to a full choice: the index is kept, a finish
/// reason still absent becomes the empty string (the caller-visible sign
/// of a truncated stream), the message is converted.
pub open spec fn spec_full_choice(d: ChoiceDeltaView) -> ChoiceView {
    ChoiceView {
        index: d.index,
        finish_reason: match d.finish_reason {
            Some(f) => f,
            None => Seq::<char>::empty(),
        },
        message: spec_full_message(d.delta),
    }
}

/// A delta envelope converted to a full envelope, choice by choice.
pub open spec fn spec_full_envelope(d: EnvelopeView<ChoiceDeltaView>) -> EnvelopeView<ChoiceView> {
    EnvelopeView {
        id: d.id,
        object: d.object,
        created: d.created,
        model: d.model,
        choices: Seq::new(d.choices.len(), |i: int| spec_full_choice(d.choices[i])),
        usage: d.usage,
    }
}

impl ChatCompletionFunctionCall {
    /// Converts a streamed function-call fragment, filling defaults.
    pub fn from_delta(delta: ChatCompletionFunctionCallDelta) -> (r: Self)
        ensures
            r@ == spec_full_function_call(delta@),
    {
        ChatCompletionFunctionCall {
            name: match delta.name {
                Some(n) => n,
                None => String::new(),
            },
            arguments: match delta.arguments {
                Some(a) => a,
                None => String::new(),
            },
        }
    }
}

impl ChatCompletionMessage {
    /// Converts a fully-merged delta message into a full message.
    pub fn from_delta(delta: ChatCompletionMessageDelta) -> (r: Self)
        ensures
            r@ == spec_full_message(delta@),
    {
        let ghost d0 = delta@;
        let r = ChatCompletionMessage {
            role: match delta.role {
                Some(role) => role,
                None => ChatCompletionMessageRole::Assistant,
            },
            content: delta.content,
            name: delta.name,
            function_call: match delta.function_call {
                Some(f) => Some(ChatCompletionFunctionCall::from_delta(f)),
                None => None,
            },
            tool_call_id: delta.tool_call_id,
            tool_calls: delta.tool_calls,
        };
        proof {
            assert(r@ =~= spec_full_message(d0));
        }
        r
    }
}

impl ChatCompletionChoice {
    /// Converts a fully-merged delta choice into a full choice.
    pub fn from_delta(choice: &ChatCompletionChoiceDelta) -> (r: Self)
        ensures
            r@ == spec_full_choice(choice@),
    {
        let r = ChatCompletionChoice {
            index: choice.index,
            finish_reason: clone_default_unwrapped_option_string(&choice.finish_reason),
            message: ChatCompletionMessage::from_delta(choice.delta.clone()),
        };
        proof {
            assert(r@ =~= spec_full_choice(choice@));
        }
        r
    }
}

impl ChatCompletion {
    /// Converts a fully-merged delta envelope into a full completion,
    /// choice by choice; the conversion is total and deterministic.
    pub fn from_delta(delta: ChatCompletionDelta) -> (r: Self)
        ensures
            r@ == spec_full_envelope(delta@),
    {
        let ghost d0 = delta@;
        let mut choices: Vec<ChatCompletionChoice> = Vec::new();
        let n = delta.choices.len();
        let mut i: usize = 0;
        while i < n
            invariant
                i <= n,
                n == delta.choices.len(),
                choices@.len() == i,
                forall|k: int| 0 <= k < i ==> choices@[k]@ == spec_full_choice(
                    delta.choices@[k]@,
                ),
            decreases n - i,
        {
            choices.push(ChatCompletionChoice::from_delta(&delta.choices[i]));
            i += 1;
        }
        let r = ChatCompletion {
            id: delta.id,
            object: delta.object,
            created: delta.created,
            model: delta.model,
            choices,
            usage: delta.usage,
        };
        proof {
            assert(r@.choices =~= spec_full_envelope(d0).choices);
            assert(r@ =~= spec_full_envelope(d0));
        }
        r
    }
}

impl ChatCompletion {
    /// Starts building a chat-completion request for the given model and
    /// conversation; every other option starts unset.
    pub fn builder(model: &str, messages: Vec<ChatCompletionMessage>) -> (r:
        crate::chat::requests::ChatCompletionBuilder)
        ensures
            r.request.model@ == model@,
            r.request.messages == messages,
            r.request.max_completion_tokens is None,
            r.request.n is None,
            r.request.stop@.len() == 0,
            r.request.user is None,
            r.request.seed is None,
            r.request.store is None,
            r.request.response_format is None,
            r.request.functions@.len() == 0,
            r.request.tool_choice is None,
            r.request.credentials is None,
    {
        crate::chat::requests::ChatCompletionBuilder {
            request: crate::chat::requests::ChatCompletionRequest {
                model: model.to_owned(),
                messages,
                max_completion_tokens: None,
                n: None,
                stop: Vec::new(),
                user: None,
                seed: None,
                store: None,
                response_format: None,
                functions: Vec::new(),
                tool_choice: None,
                credentials: None,
            },
        }
    }
}

// --- the completion accumulator ---

/// Why accumulating a stream of deltas failed.
#[derive(Clone, Copy, Debug, PartialEq, Eq)]
pub enum CompletionAccumulationError {
    /// The stream closed before any delta arrived, so there is nothing to
    /// accumulate.
    EmptyStream,
    /// A delta could not be merged: a protocol violation.
    Merge(ChatCompletionDeltaMergeError),
}

/// The accumulated delta envelope after folding a received sequence in
/// order: the first delta seeds the accumulator and each later one is
/// merged in; an empty sequence or an id mismatch is an error.
pub open spec fn spec_accumulate(ds: Seq<EnvelopeView<ChoiceDeltaView>>) -> Result<
    EnvelopeView<ChoiceDeltaView>,
    CompletionAccumulationError,
>
    decreases ds.len(),
{
    if ds.len() == 0 {
        Err(CompletionAccumulationError::EmptyStream)
    } else if ds.len() == 1 {
        Ok(ds[0])
    } else {
        match spec_accumulate(ds.drop_last()) {
            Ok(acc) => if acc.id == ds.last().id {
                Ok(spec_merge_envelope(acc, ds.last()))
            } else {
                Err(
                    CompletionAccumulationError::Merge(
                        ChatCompletionDeltaMergeError::DifferentCompletionIds,
                    ),
                )
            },
            Err(e) => Err(e),
        }
    }
}

/// Once the accumulation of a prefix has failed, the whole sequence fails
/// the same way.
proof fn lemma_accumulate_err_stable(ds: Seq<EnvelopeView<ChoiceDeltaView>>, k: int)
    requires
        1 <= k <= ds.len(),
        spec_accumulate(ds.take(k)) is Err,
    ensures
        spec_accumulate(ds) == spec_accumulate(ds.take(k)),
    decreases ds.len() - k,
{
    if k == ds.len() {
        assert(ds.take(k) =~= ds);
    } else {
        assert(ds.take(k + 1).drop_last() =~= ds.take(k));
        lemma_accumulate_err_stable(ds, k + 1);
    }
}

/// Folds a received sequence of deltas, in arrival order, into one full
/// completion: the first delta seeds the accumulator, each later delta is
/// merged in, and the final accumulator is converted. An empty sequence
/// reports an empty stream rather than a completion; an id mismatch
/// surfaces the merge error.
pub fn drain_to_completion(deltas: Vec<ChatCompletionDelta>) -> (r: Result<
    ChatCompletion,
    CompletionAccumulationError,
>)
    ensures
        deltas@.len() == 0 ==> r == Err::<ChatCompletion, CompletionAccumulationError>(
            CompletionAccumulationError::EmptyStream,
        ),
        match spec_accumulate(deltas.deep_view()) {
            Ok(acc) => r matches Ok(c) && c@ == spec_full_envelope(acc),
            Err(e) => r == Err::<ChatCompletion, CompletionAccumulationError>(e),
        },
{
    if deltas.len() == 0 {
        return Err(CompletionAccumulationError::EmptyStream);
    }
    let mut acc = deltas[0].clone();
    proof {
        assert(deltas.deep_view().take(1).len() == 1);
        assert(deltas.deep_view().take(1)[0] == deltas.deep_view()[0]);
    }
    let mut k: usize = 1;
    while k < deltas.len()
        invariant
            1 <= k <= deltas@.len(),
            spec_accumulate(deltas.deep_view().take(k as int)) == Ok::<
                EnvelopeView<ChoiceDeltaView>,
                CompletionAccumulationError,
            >(acc@),
        decreases deltas@.len() - k,
    {
        proof {
            assert(deltas.deep_view().take(k + 1).drop_last() =~= deltas.deep_view().take(
                k as int,
            ));
            assert(deltas.deep_view().take(k + 1).last() == deltas.deep_view()[k as int]);
        }
        let d = deltas[k].clone();
        match acc.merge(d) {
            Ok(_) => {},
            Err(_) => {
                proof {
                    lemma_accumulate_err_stable(deltas.deep_view(), k as int + 1);
                }
                return Err(
                    CompletionAccumulationError::Merge(
                        ChatCompletionDeltaMergeError::DifferentCompletionIds,
                    ),
                );
            },
        }
        k += 1;
    }
    proof {
        assert(deltas.deep_view().take(deltas@.len() as int) =~= deltas.deep_view());
    }
    Ok(ChatCompletion::from_delta(acc))
}

} // verus!
