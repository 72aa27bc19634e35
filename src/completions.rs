//! Completion requests and responses.
use vstd::prelude::*;
use crate::client::{OpenAIRequest, OpenAIResponse};
use crate::json::{Field, Json, lemma_absent_key, member, members_match, string_list};
use crate::numbers::{decimal, decimal_text, hundredths, hundredths_text};

verus! {

/// A request for a completion of `prompt` by `model`. The temperature is
/// given in hundredths; unset options are left out of the body.
#[derive(Debug, Clone, PartialEq, Eq)]
pub struct CompletionRequest {
    pub model: String,
    pub prompt: String,
    pub temperature: Option<u64>,
    pub max_tokens: Option<usize>,
}

/// One generated text of a completion.
#[derive(Debug, Clone, PartialEq, Eq)]
pub struct CompletionChoice {
    pub text: String,
}

/// The generated texts of a completion, in the order the API gave them.
#[derive(Debug, Clone, PartialEq, Eq)]
pub struct CompletionResponse {
    pub choices: Vec<CompletionChoice>,
}

pub open spec fn completion_fields(
    model: Seq<char>,
    prompt: Seq<char>,
    temperature: Option<u64>,
    max_tokens: Option<usize>,
) -> Seq<(Seq<char>, Field)> {
    seq![("model"@, Field::Text(model)), ("prompt"@, Field::Text(prompt))]
        + match temperature {
            Some(h) => seq![("temperature"@, Field::Number(hundredths_text(h as nat)))],
            None => seq![],
        }
        + match max_tokens {
            Some(n) => seq![("max_tokens"@, Field::Number(decimal_text(n as nat)))],
            None => seq![],
        }
}

impl CompletionRequest {
    /// A request with no temperature and no token limit.
    pub fn new(model: &str, prompt: &str) -> (r: CompletionRequest)
        ensures
            r.model@ == model@,
            r.prompt@ == prompt@,
            r.temperature is None,
            r.max_tokens is None,
    {
        CompletionRequest {
            model: model.to_owned(),
            prompt: prompt.to_owned(),
            temperature: None,
            max_tokens: None,
        }
    }

    /// The same request with the temperature set, in hundredths.
    pub fn temperature(self, hundredths: u64) -> (r: CompletionRequest)
        ensures
            r == (CompletionRequest { temperature: Some(hundredths), ..self }),
    {
        CompletionRequest { temperature: Some(hundredths), ..self }
    }

    /// The same request with the token limit set.
    pub fn max_tokens(self, max_tokens: usize) -> (r: CompletionRequest)
        ensures
            r == (CompletionRequest { max_tokens: Some(max_tokens), ..self }),
    {
        CompletionRequest { max_tokens: Some(max_tokens), ..self }
    }
}

/// A completion request built without a temperature has no `temperature`
/// member in its body at all.
pub proof fn lemma_temperature_omitted(req: CompletionRequest, j: Json)
    requires
        req.temperature is None,
        j is Object,
        members_match(j->Object_0@, req.fields()),
    ensures
        member(j, "temperature"@) is None,
{
    reveal_strlit("temperature");
    reveal_strlit("model");
    reveal_strlit("prompt");
    reveal_strlit("max_tokens");
    let fs = req.fields();
    assert forall|i: int| 0 <= i < fs.len() implies (#[trigger] fs[i]).0 != "temperature"@ by {
        assert(fs[i].0 == "model"@ || fs[i].0 == "prompt"@ || fs[i].0 == "max_tokens"@);
        assert("temperature"@[0] != "model"@[0]);
        assert("temperature"@[0] != "prompt"@[0]);
        assert("temperature"@[0] != "max_tokens"@[0]);
    }
    lemma_absent_key(j->Object_0@, fs, "temperature"@);
}

impl OpenAIRequest for CompletionRequest {
    open spec fn endpoint_spec(&self) -> Seq<char> {
        "https://api.openai.com/v1/completions"@
    }

    open spec fn fields(&self) -> Seq<(Seq<char>, Field)> {
        completion_fields(self.model@, self.prompt@, self.temperature, self.max_tokens)
    }

    fn endpoint(&self) -> (r: &str) {
        "https://api.openai.com/v1/completions"
    }

    fn to_json(&self) -> (r: Json) {
        let mut members: Vec<(String, Json)> = Vec::new();
        members.push(("model".to_owned(), Json::Str(self.model.clone())));
        members.push(("prompt".to_owned(), Json::Str(self.prompt.clone())));
        match self.temperature {
            Some(h) => members.push(("temperature".to_owned(), Json::Number(hundredths(h)))),
            None => {},
        }
        match self.max_tokens {
            Some(n) => members.push(("max_tokens".to_owned(), Json::Number(decimal(n as u64)))),
            None => {},
        }
        let r = Json::Object(members);
        assert(r->Object_0@.len() == self.fields().len());
        r
    }
}

impl OpenAIResponse for CompletionResponse {
    open spec fn decodes(j: Json, r: CompletionResponse) -> bool {
        let texts = string_list(j, "choices"@, "text"@)->Some_0;
        &&& string_list(j, "choices"@, "text"@) is Some
        &&& r.choices@.len() == texts.len()
        &&& forall|i: int| 0 <= i < texts.len() ==> (#[trigger] r.choices@[i]).text@ == texts[i]
    }

    open spec fn decodable(j: Json) -> bool {
        string_list(j, "choices"@, "text"@) is Some
    }

    fn from_json(j: &Json) -> (r: Option<CompletionResponse>) {
        let texts = match j.string_list("choices", "text") {
            Some(t) => t,
            None => return None,
        };
        let mut choices: Vec<CompletionChoice> = Vec::new();
        let mut i: usize = 0;
        while i < texts.len()
            invariant
                0 <= i <= texts.len(),
                texts@.map_values(|s: String| s@) == string_list(*j, "choices"@, "text"@)->Some_0,
                choices@.len() == i,
                forall|k: int| 0 <= k < i ==> (#[trigger] choices@[k]).text@ == texts@[k]@,
            decreases texts.len() - i,
        {
            choices.push(CompletionChoice { text: texts[i].clone() });
            i = i + 1;
        }
        Some(CompletionResponse { choices })
    }
}

} // verus!
