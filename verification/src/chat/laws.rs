//! The protocol-wide guarantees of the merge engine, stated and proved
//! over the spec functions that the merge and conversion contracts use.

use vstd::prelude::*;

use crate::chat::modules::ChoiceDeltaView;
use crate::chat::modules::EnvelopeView;
use crate::chat::modules::MessageDeltaView;
use crate::chat::modules::spec_accumulate;
use crate::chat::modules::spec_choice_after;
use crate::chat::modules::spec_full_envelope;
use crate::chat::modules::spec_merge_choice;
use crate::chat::modules::spec_merge_envelope;
use crate::chat::modules::spec_merge_message;

verus! {

/// The text a content field carries: its fragment, or nothing.
pub open spec fn text_of(content: Option<Seq<char>>) -> Seq<char> {
    match content {
        Some(s) => s,
        None => Seq::<char>::empty(),
    }
}

/// The content fragments of a sequence of single-choice deltas,
/// concatenated in order.
pub open spec fn spec_concat_contents(ds: Seq<EnvelopeView<ChoiceDeltaView>>) -> Seq<char>
    decreases ds.len(),
{
    if ds.len() == 0 {
        Seq::<char>::empty()
    } else {
        spec_concat_contents(ds.drop_last()) + text_of(ds.last().choices[0].delta.content)
    }
}

/// Merging message fragments concatenates their content texts, an absent
/// content counting as the empty text.
pub proof fn lemma_merge_message_content(a: MessageDeltaView, b: MessageDeltaView)
    ensures
        text_of(spec_merge_message(a, b).content) == text_of(a.content) + text_of(b.content),
{
    match (a.content, b.content) {
        (Some(x), Some(y)) => {
        },
        (None, Some(y)) => {
            assert(Seq::<char>::empty() + y =~= y);
        },
        (Some(x), None) => {
            assert(x + Seq::<char>::empty() =~= x);
        },
        (None, None) => {
            assert(Seq::<char>::empty() + Seq::<char>::empty() =~= Seq::<char>::empty());
        },
    }
}

/// Order preservation: a sequence of deltas from one stream (one id),
/// each carrying the single choice of one slot, accumulates to a single
/// choice whose content is the concatenation of every delta's content
/// fragment, in arrival order.
pub proof fn lemma_order_preservation(ds: Seq<EnvelopeView<ChoiceDeltaView>>)
    requires
        ds.len() >= 1,
        forall|k: int| 0 <= k < ds.len() ==> (#[trigger] ds[k]).id == ds[0].id,
        forall|k: int| 0 <= k < ds.len() ==> (#[trigger] ds[k]).choices.len() == 1,
        forall|k: int| 0 <= k < ds.len() ==> (#[trigger] ds[k]).choices[0].index
            == ds[0].choices[0].index,
    ensures
        spec_accumulate(ds) matches Ok(acc) && acc.id == ds[0].id && acc.choices.len() == 1
            && acc.choices[0].index == ds[0].choices[0].index && text_of(
            acc.choices[0].delta.content,
        ) == spec_concat_contents(ds),
    decreases ds.len(),
{
    if ds.len() == 1 {
        assert(ds.drop_last().len() == 0);
        assert(spec_concat_contents(ds.drop_last()) == Seq::<char>::empty());
        assert(ds.last() == ds[0]);
        assert(spec_concat_contents(ds) == Seq::<char>::empty() + text_of(
            ds[0].choices[0].delta.content,
        ));
        assert(Seq::<char>::empty() + text_of(ds[0].choices[0].delta.content) =~= text_of(
            ds[0].choices[0].delta.content,
        ));
    } else {
        let front = ds.drop_last();
        let last = ds.last();
        assert(forall|k: int| 0 <= k < front.len() ==> front[k] == ds[k]);
        lemma_order_preservation(front);
        let acc = spec_accumulate(front).unwrap();
        let merged = spec_merge_envelope(acc, last);
        assert(spec_accumulate(ds) == Ok::<_, crate::chat::modules::CompletionAccumulationError>(
            merged,
        ));
        assert(merged.choices[0] == spec_choice_after(acc.choices[0], last.choices));
        assert(last.choices.drop_last() =~= Seq::<ChoiceDeltaView>::empty());
        assert(spec_choice_after(acc.choices[0], Seq::<ChoiceDeltaView>::empty())
            == acc.choices[0]);
        assert(last.choices.last() == last.choices[0]);
        assert(acc.choices[0].index == last.choices[0].index);
        assert(spec_choice_after(acc.choices[0], last.choices) == spec_merge_choice(
            acc.choices[0],
            last.choices[0],
        ));
        lemma_merge_message_content(acc.choices[0].delta, last.choices[0].delta);
        assert(spec_concat_contents(ds) == spec_concat_contents(front) + text_of(
            last.choices[0].delta.content,
        ));
    }
}

/// Idempotent conversion: converting a delta envelope to a full envelope
/// is a pure function of the delta's value, so converting the same value
/// twice yields identical results.
pub proof fn lemma_conversion_deterministic(
    d: EnvelopeView<ChoiceDeltaView>,
    r1: EnvelopeView<crate::chat::modules::ChoiceView>,
    r2: EnvelopeView<crate::chat::modules::ChoiceView>,
)
    requires
        r1 == spec_full_envelope(d),
        r2 == spec_full_envelope(d),
    ensures
        r1 == r2,
{
}

/// First write wins for the role: across two merges in order, the first
/// fragment that carries a role decides it.
pub proof fn lemma_role_first_write_wins(
    a: MessageDeltaView,
    b: MessageDeltaView,
    c: MessageDeltaView,
)
    ensures
        spec_merge_message(spec_merge_message(a, b), c).role == (if a.role is Some {
            a.role
        } else if b.role is Some {
            b.role
        } else {
            c.role
        }),
{
}

/// The finish reason is one-shot: once a merge has set it, no later
/// fragment overwrites it.
pub proof fn lemma_finish_reason_one_shot(
    c: ChoiceDeltaView,
    b1: ChoiceDeltaView,
    b2: ChoiceDeltaView,
)
    requires
        c.finish_reason is None,
        b1.finish_reason is Some,
    ensures
        spec_merge_choice(spec_merge_choice(c, b1), b2).finish_reason == b1.finish_reason,
{
}

} // verus!
