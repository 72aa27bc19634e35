//! The catalog of known models: a name and a token ceiling each.
use vstd::prelude::*;

verus! {

/// A model that serves completions.
#[derive(Debug, Clone, Copy, PartialEq, Eq)]
pub struct CompletionModel {
    pub name: &'static str,
    pub max_tokens: usize,
}

/// A model that serves edits.
#[derive(Debug, Clone, Copy, PartialEq, Eq)]
pub struct EditModel {
    pub name: &'static str,
    pub max_tokens: usize,
}

impl CompletionModel {
    pub fn text_davinci_003() -> (r: CompletionModel)
        ensures
            r.name@ == "text-davinci-003"@,
            r.max_tokens == 4097,
    {
        CompletionModel { name: "text-davinci-003", max_tokens: 4097 }
    }

    pub fn text_curie_001() -> (r: CompletionModel)
        ensures
            r.name@ == "text-curie-001"@,
            r.max_tokens == 2049,
    {
        CompletionModel { name: "text-curie-001", max_tokens: 2049 }
    }

    pub fn text_babbage_001() -> (r: CompletionModel)
        ensures
            r.name@ == "text-babbage-001"@,
            r.max_tokens == 2049,
    {
        CompletionModel { name: "text-babbage-001", max_tokens: 2049 }
    }

    pub fn text_ada_001() -> (r: CompletionModel)
        ensures
            r.name@ == "text-ada-001"@,
            r.max_tokens == 2049,
    {
        CompletionModel { name: "text-ada-001", max_tokens: 2049 }
    }
}

impl EditModel {
    pub fn text_davinci_edit_001() -> (r: EditModel)
        ensures
            r.name@ == "text-davinci-edit-001"@,
            r.max_tokens == 2049,
    {
        EditModel { name: "text-davinci-edit-001", max_tokens: 2049 }
    }

    pub fn code_davinci_edit_001() -> (r: EditModel)
        ensures
            r.name@ == "code-davinci-edit-001"@,
            r.max_tokens == 2049,
    {
        EditModel { name: "code-davinci-edit-001", max_tokens: 2049 }
    }
}

} // verus!
