//! Edit requests and responses.
use vstd::prelude::*;
use crate::client::{OpenAIRequest, OpenAIResponse};
use crate::json::{Field, Json, string_list};
use crate::numbers::{hundredths, hundredths_text};

verus! {

/// A request to rewrite `input` by `model` as `instruction` says. The
/// temperature is given in hundredths; unset options are left out of the body.
#[derive(Debug, Clone, PartialEq, Eq)]
pub struct EditRequest {
    pub model: String,
    pub instruction: String,
    pub input: Option<String>,
    pub temperature: Option<u64>,
}

/// One edited text.
#[derive(Debug, Clone, PartialEq, Eq)]
pub struct EditChoice {
    pub text: String,
}

/// The edited texts, in the order the API gave them.
#[derive(Debug, Clone, PartialEq, Eq)]
pub struct EditResponse {
    pub choices: Vec<EditChoice>,
}

pub open spec fn edit_fields(
    model: Seq<char>,
    instruction: Seq<char>,
    input: Option<Seq<char>>,
    temperature: Option<u64>,
) -> Seq<(Seq<char>, Field)> {
    seq![("model"@, Field::Text(model))]
        + match input {
            Some(s) => seq![("input"@, Field::Text(s))],
            None => seq![],
        }
        + seq![("instruction"@, Field::Text(instruction))]
        + match temperature {
            Some(h) => seq![("temperature"@, Field::Number(hundredths_text(h as nat)))],
            None => seq![],
        }
}

impl EditRequest {
    /// A request with no input text and no temperature.
    pub fn new(model: &str, instruction: &str) -> (r: EditRequest)
        ensures
            r.model@ == model@,
            r.instruction@ == instruction@,
            r.input is None,
            r.temperature is None,
    {
        EditRequest {
            model: model.to_owned(),
            instruction: instruction.to_owned(),
            input: None,
            temperature: None,
        }
    }

    /// The same request with the text to edit set.
    pub fn input(self, input: &str) -> (r: EditRequest)
        ensures
            r.model == self.model,
            r.instruction == self.instruction,
            r.input is Some && r.input->Some_0@ == input@,
            r.temperature == self.temperature,
    {
        EditRequest { input: Some(input.to_owned()), ..self }
    }

    /// The same request with the temperature set, in hundredths.
    pub fn temperature(self, hundredths: u64) -> (r: EditRequest)
        ensures
            r == (EditRequest { temperature: Some(hundredths), ..self }),
    {
        EditRequest { temperature: Some(hundredths), ..self }
    }
}

impl OpenAIRequest for EditRequest {
    open spec fn endpoint_spec(&self) -> Seq<char> {
        "https://api.openai.com/v1/edits"@
    }

    open spec fn fields(&self) -> Seq<(Seq<char>, Field)> {
        let input = match self.input {
            Some(s) => Some(s@),
            None => None,
        };
        edit_fields(self.model@, self.instruction@, input, self.temperature)
    }

    fn endpoint(&self) -> (r: &str) {
        "https://api.openai.com/v1/edits"
    }

    fn to_json(&self) -> (r: Json) {
        let mut members: Vec<(String, Json)> = Vec::new();
        members.push(("model".to_owned(), Json::Str(self.model.clone())));
        match &self.input {
            Some(s) => members.push(("input".to_owned(), Json::Str(s.clone()))),
            None => {},
        }
        members.push(("instruction".to_owned(), Json::Str(self.instruction.clone())));
        match self.temperature {
            Some(h) => members.push(("temperature".to_owned(), Json::Number(hundredths(h)))),
            None => {},
        }
        let r = Json::Object(members);
        assert(r->Object_0@.len() == self.fields().len());
        r
    }
}

impl OpenAIResponse for EditResponse {
    open spec fn decodes(j: Json, r: EditResponse) -> bool {
        let texts = string_list(j, "choices"@, "text"@)->Some_0;
        &&& string_list(j, "choices"@, "text"@) is Some
        &&& r.choices@.len() == texts.len()
        &&& forall|i: int| 0 <= i < texts.len() ==> (#[trigger] r.choices@[i]).text@ == texts[i]
    }

    open spec fn decodable(j: Json) -> bool {
        string_list(j, "choices"@, "text"@) is Some
    }

    fn from_json(j: &Json) -> (r: Option<EditResponse>) {
        let texts = match j.string_list("choices", "text") {
            Some(t) => t,
            None => return None,
        };
        let mut choices: Vec<EditChoice> = Vec::new();
        let mut i: usize = 0;
        while i < texts.len()
            invariant
                0 <= i <= texts.len(),
                texts@.map_values(|s: String| s@) == string_list(*j, "choices"@, "text"@)->Some_0,
                choices@.len() == i,
                forall|k: int| 0 <= k < i ==> (#[trigger] choices@[k]).text@ == texts@[k]@,
            decreases texts.len() - i,
        {
            choices.push(EditChoice { text: texts[i].clone() });
            i = i + 1;
        }
        Some(EditResponse { choices })
    }
}

} // verus!
