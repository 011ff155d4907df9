//! Edits: given a prompt and an instruction, the model returns an edited
//! version of the prompt. The reply arrives with its choices nested in
//! objects; [`Edit::normalize_choices`] lifts them into the plain list.

use vstd::prelude::*;

use crate::Usage;

verus! {

/// One edited text, as the wire nests it.
#[derive(Debug, Clone, PartialEq, Eq)]
pub struct EditChoice {
    pub text: String,
}

/// An edit reply: `choices` holds the edited texts once
/// [`Edit::normalize_choices`] has lifted them out of `raw_choices`.
#[derive(Debug, Clone, PartialEq, Eq)]
pub struct Edit {
    pub created: u32,
    pub choices: Vec<String>,
    pub usage: Usage,
    pub raw_choices: Vec<EditChoice>,
}

impl Edit {
    /// Appends the text of every nested choice to the plain choice list,
    /// in order.
    pub fn normalize_choices(&mut self)
        ensures
            final(self).choices.deep_view() == old(self).choices.deep_view() + Seq::new(
                old(self).raw_choices@.len(),
                |i: int| old(self).raw_choices@[i].text@,
            ),
            final(self).created == old(self).created,
            final(self).usage == old(self).usage,
            final(self).raw_choices == old(self).raw_choices,
    {
        let ghost orig = *self;
        let n = self.raw_choices.len();
        let mut i: usize = 0;
        while i < n
            invariant
                i <= n,
                n == self.raw_choices@.len(),
                self.raw_choices == orig.raw_choices,
                self.created == orig.created,
                self.usage == orig.usage,
                self.choices@.len() == orig.choices@.len() + i,
                forall|k: int| 0 <= k < orig.choices@.len() ==> self.choices@[k]@
                    == orig.choices@[k]@,
                forall|k: int| 0 <= k < i ==> self.choices@[orig.choices@.len() + k]@
                    == orig.raw_choices@[k].text@,
            decreases n - i,
        {
            let text = self.raw_choices[i].text.clone();
            self.choices.push(text);
            i += 1;
        }
        proof {
            assert(self.choices.deep_view() =~= orig.choices.deep_view() + Seq::new(
                orig.raw_choices@.len(),
                |k: int| orig.raw_choices@[k].text@,
            ));
        }
    }

    /// Starts building an edit request for the given model and instruction.
    pub fn builder(model: &str, instruction: &str) -> (r: EditBuilder)
        ensures
            r.request.model@ == model@,
            r.request.instruction@ == instruction@,
            r.request.input is None,
            r.request.n is None,
    {
        EditBuilder {
            request: EditRequest {
                model: model.to_owned(),
                input: None,
                instruction: instruction.to_owned(),
                n: None,
            },
        }
    }
}

/// An edit request.
#[derive(Debug, Clone, PartialEq, Eq, Default)]
pub struct EditRequest {
    /// ID of the model to use.
    pub model: String,
    /// The input text to use as a starting point for the edit.
    pub input: Option<String>,
    /// The instruction that tells the model how to edit the prompt.
    pub instruction: String,
    /// How many edits to generate for the input and instruction.
    pub n: Option<u16>,
}

/// Builds an [`EditRequest`] setter by setter.
#[derive(Debug, Clone, PartialEq, Eq, Default)]
pub struct EditBuilder {
    pub request: EditRequest,
}

impl EditBuilder {
    /// The request as built so far.
    pub fn build(self) -> (r: EditRequest)
        ensures
            r == self.request,
    {
        self.request
    }

    pub fn input(self, input: &str) -> (r: Self)
        ensures
            r.request.input matches Some(s) && s@ == input@,
            r.request == (EditRequest { input: r.request.input, ..self.request }),
    {
        EditBuilder { request: EditRequest { input: Some(input.to_owned()), ..self.request } }
    }

    pub fn n(self, n: u16) -> (r: Self)
        ensures
            r.request == (EditRequest { n: Some(n), ..self.request }),
    {
        EditBuilder { request: EditRequest { n: Some(n), ..self.request } }
    }
}

} // verus!
