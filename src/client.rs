//! The request and response capabilities and the client.
use vstd::prelude::*;
use crate::completions::{CompletionRequest, CompletionResponse, completion_fields};
use crate::edits::{EditRequest, edit_fields};
use crate::error::OpenAIError;
use crate::images::{CreateImageRequest, image_fields};
use crate::json::{
    Field, Json, item_text, json_parse, json_text, lemma_object_text, member, members_match,
    object_text, parse_json, string_list,
};
use crate::models::{CompletionModel, EditModel};

verus! {

/// A request value: where it is sent and the fields of its JSON body.
pub trait OpenAIRequest: Sized {
    /// The URL the request is posted to.
    spec fn endpoint_spec(&self) -> Seq<char>;

    /// The members of the JSON body, in order.
    spec fn fields(&self) -> Seq<(Seq<char>, Field)>;

    fn endpoint(&self) -> (r: &str)
        ensures
            r@ == self.endpoint_spec(),
    ;

    fn to_json(&self) -> (r: Json)
        ensures
            r is Object,
            members_match(r->Object_0@, self.fields()),
    ;
}

/// A response value, read from the JSON of a success payload.
pub trait OpenAIResponse: Sized {
    /// `r` is what the payload `j` holds.
    spec fn decodes(j: Json, r: Self) -> bool;

    /// The payload `j` has the shape of this response.
    spec fn decodable(j: Json) -> bool;

    fn from_json(j: &Json) -> (r: Option<Self>)
        ensures
            r is Some <==> Self::decodable(*j),
            r is Some ==> Self::decodes(*j, r->Some_0),
    ;
}

/// The URL that lists the available models.
pub open spec fn models_url() -> Seq<char> {
    "https://api.openai.com/v1/models"@
}

/// The HTTP method of a call.
#[derive(Debug, Clone, Copy, PartialEq, Eq)]
pub enum Method {
    Get,
    Post,
}

/// One HTTP call, ready to be performed: the method, the URL, the bearer
/// credential for the authorization header, and the JSON body if any.
#[derive(Debug, Clone, PartialEq, Eq)]
pub struct HttpRequest {
    pub method: Method,
    pub url: String,
    pub bearer: String,
    pub body: Option<String>,
}

/// The client handle: the API key sent with every call. It holds nothing
/// that a call changes, so one handle serves any number of calls at once.
#[derive(Debug, Clone, PartialEq, Eq)]
pub struct OpenAIClient {
    pub api_key: String,
}

/// The `type` of a remote error object, where it is a string.
pub open spec fn error_type(e: Json) -> Option<Seq<char>> {
    item_text(e, "type"@)
}

/// `err` is the typed error for the remote error object `e`: the variant
/// follows its `type`, and the payload is the object's JSON text.
pub open spec fn reports(err: OpenAIError, e: Json) -> bool {
    let t = error_type(e);
    if t == Some("billing_not_active"@) {
        err is BillingNotActive && err->BillingNotActive_0@ == json_text(e)
    } else if t == Some("invalid_request_error"@) {
        err is InvalidRequest && err->InvalidRequest_0@ == json_text(e)
    } else {
        err is UnrecognizedError && err->UnrecognizedError_0@ == json_text(e)
    }
}

/// What a call ends in once its body decoded to `j`: the typed error where
/// `j` carries an `error` member, else the response that `j` holds, else a
/// decode error.
pub open spec fn outcome<Res: OpenAIResponse>(j: Json, r: Result<Res, OpenAIError>) -> bool {
    match member(j, "error"@) {
        Some(e) => r is Err && reports(r->Err_0, e),
        None => if Res::decodable(j) {
            r is Ok && Res::decodes(j, r->Ok_0)
        } else {
            r is Err && r->Err_0 is DecodeError
        },
    }
}

/// What a call ends in once its body text is `body`; a body that is not JSON
/// is a transport error.
pub open spec fn body_outcome<Res: OpenAIResponse>(body: Seq<char>, r: Result<Res, OpenAIError>) -> bool {
    match json_parse(body) {
        Some(j) => outcome(j, r),
        None => r is Err && r->Err_0 is TransportError,
    }
}

/// A success payload with at least one choice gives a completion whose
/// first choice is the payload's first `choices[].text`.
pub proof fn lemma_first_choice(
    body: Seq<char>,
    j: Json,
    r: Result<CompletionResponse, OpenAIError>,
)
    requires
        body_outcome(body, r),
        json_parse(body) == Some(j),
        member(j, "error"@) is None,
        string_list(j, "choices"@, "text"@) is Some,
        string_list(j, "choices"@, "text"@)->Some_0.len() > 0,
    ensures
        r is Ok,
        r->Ok_0.choices@.len() > 0,
        r->Ok_0.choices@[0].text@ == string_list(j, "choices"@, "text"@)->Some_0[0],
{
}

/// A payload whose `error.type` is `billing_not_active` or
/// `invalid_request_error` gives that typed error, and any other error
/// object gives `UnrecognizedError`; each carries the error object's JSON
/// text unchanged.
pub proof fn lemma_error_types<Res: OpenAIResponse>(
    body: Seq<char>,
    j: Json,
    e: Json,
    r: Result<Res, OpenAIError>,
)
    requires
        body_outcome(body, r),
        json_parse(body) == Some(j),
        member(j, "error"@) == Some(e),
    ensures
        error_type(e) == Some("billing_not_active"@) ==> r == Err::<Res, OpenAIError>(
            OpenAIError::BillingNotActive(r->Err_0->BillingNotActive_0),
        ) && r->Err_0->BillingNotActive_0@ == json_text(e),
        error_type(e) == Some("invalid_request_error"@) ==> r == Err::<Res, OpenAIError>(
            OpenAIError::InvalidRequest(r->Err_0->InvalidRequest_0),
        ) && r->Err_0->InvalidRequest_0@ == json_text(e),
        error_type(e) != Some("billing_not_active"@) && error_type(e) != Some("invalid_request_error"@)
            ==> r == Err::<Res, OpenAIError>(OpenAIError::UnrecognizedError(r->Err_0->UnrecognizedError_0))
            && r->Err_0->UnrecognizedError_0@ == json_text(e),
{
    reveal_strlit("billing_not_active");
    reveal_strlit("invalid_request_error");
    assert("billing_not_active"@[0] != "invalid_request_error"@[0]);
}

/// The typed error for a remote error object.
pub fn classify_error(e: &Json) -> (r: OpenAIError)
    ensures
        reports(r, *e),
{
    let payload = e.to_text();
    let kind = match e.get("type") {
        Some(t) => t.as_str(),
        None => None,
    };
    match kind {
        Some(t) => {
            let t = t.to_owned();
            if t == "billing_not_active".to_owned() {
                OpenAIError::BillingNotActive(payload)
            } else if t == "invalid_request_error".to_owned() {
                OpenAIError::InvalidRequest(payload)
            } else {
                OpenAIError::UnrecognizedError(payload)
            }
        },
        None => OpenAIError::UnrecognizedError(payload),
    }
}

/// The result that a decoded response body stands for.
pub fn interpret_json<Res: OpenAIResponse>(j: &Json) -> (r: Result<Res, OpenAIError>)
    ensures
        outcome(*j, r),
{
    match j.get("error") {
        Some(e) => Err(classify_error(e)),
        None => match Res::from_json(j) {
            Some(res) => Ok(res),
            None => Err(OpenAIError::DecodeError(
                "the payload does not have the shape of the expected response".to_owned(),
            )),
        },
    }
}

/// The result that a response body stands for.
pub fn interpret_response<Res: OpenAIResponse>(body: &str) -> (r: Result<Res, OpenAIError>)
    ensures
        body_outcome(body@, r),
{
    match parse_json(body) {
        Some(j) => interpret_json(&j),
        None => Err(OpenAIError::TransportError("the response body is not JSON".to_owned())),
    }
}

/// The completion request for `prompt` on `model`: the token limit is what
/// the prompt leaves of the model's ceiling. A prompt of at least that many
/// bytes is refused, and no request exists to be sent.
pub fn completion_request(model: &CompletionModel, prompt: &str) -> (r: Result<CompletionRequest, OpenAIError>)
    ensures
        r is Err <==> prompt.len() >= model.max_tokens,
        r is Err ==> r->Err_0 is TooManyTokens,
        r is Ok ==> r->Ok_0.model@ == model.name@ && r->Ok_0.prompt@ == prompt@
            && r->Ok_0.temperature is None
            && r->Ok_0.max_tokens == Some((model.max_tokens - prompt.len()) as usize),
{
    let len = prompt.len();
    if len >= model.max_tokens {
        return Err(OpenAIError::TooManyTokens(
            "The model's max tokens is not more than the length of the prompt.".to_owned(),
        ));
    }
    Ok(CompletionRequest::new(model.name, prompt).max_tokens(model.max_tokens - len))
}

impl OpenAIClient {
    pub fn new(api_key: String) -> (r: OpenAIClient)
        ensures
            r.api_key == api_key,
    {
        OpenAIClient { api_key }
    }

    /// The call that lists the available models.
    pub fn list_models_request(&self) -> (r: HttpRequest)
        ensures
            r.method == Method::Get,
            r.url@ == models_url(),
            r.bearer@ == self.api_key@,
            r.body is None,
    {
        HttpRequest {
            method: Method::Get,
            url: "https://api.openai.com/v1/models".to_owned(),
            bearer: self.api_key.clone(),
            body: None,
        }
    }

    /// The call that completes `prompt` on `model`, or `TooManyTokens`, with
    /// nothing to send, where the prompt leaves the model no room.
    pub fn complete_request(&self, model: &CompletionModel, prompt: &str) -> (r: Result<HttpRequest, OpenAIError>)
        ensures
            r is Err <==> prompt.len() >= model.max_tokens,
            r is Err ==> r->Err_0 is TooManyTokens,
            r is Ok ==> {
                let h = r->Ok_0;
                &&& h.method == Method::Post
                &&& h.url@ == "https://api.openai.com/v1/completions"@
                &&& h.bearer@ == self.api_key@
                &&& h.body == Some(h.body->Some_0)
                &&& h.body->Some_0@ == object_text(completion_fields(model.name@, prompt@, None,
                    Some((model.max_tokens - prompt.len()) as usize)))
            },
    {
        match completion_request(model, prompt) {
            Ok(request) => Ok(self.prepare_request(&request)),
            Err(e) => Err(e),
        }
    }

    /// The call that rewrites `input` by `model` as `instruction` says.
    pub fn edit_request(&self, model: &EditModel, input: &str, instruction: &str) -> (r: HttpRequest)
        ensures
            r.method == Method::Post,
            r.url@ == "https://api.openai.com/v1/edits"@,
            r.bearer@ == self.api_key@,
            r.body is Some,
            r.body->Some_0@ == object_text(edit_fields(model.name@, instruction@, Some(input@), None)),
    {
        let request = EditRequest::new(model.name, instruction).input(input);
        self.prepare_request(&request)
    }

    /// The call that creates images from `prompt`.
    pub fn create_image_request(&self, prompt: &str) -> (r: HttpRequest)
        ensures
            r.method == Method::Post,
            r.url@ == "https://api.openai.com/v1/images/generations"@,
            r.bearer@ == self.api_key@,
            r.body is Some,
            r.body->Some_0@ == object_text(image_fields(prompt@, None, None)),
    {
        let request = CreateImageRequest::new(prompt);
        self.prepare_request(&request)
    }

    /// The call that sends `request`: a POST of its JSON body to its endpoint.
    pub fn prepare_request<Req: OpenAIRequest>(&self, request: &Req) -> (r: HttpRequest)
        ensures
            r.method == Method::Post,
            r.url@ == request.endpoint_spec(),
            r.bearer@ == self.api_key@,
            r.body is Some,
            r.body->Some_0@ == object_text(request.fields()),
    {
        let j = request.to_json();
        proof {
            lemma_object_text(j, request.fields());
        }
        HttpRequest {
            method: Method::Post,
            url: request.endpoint().to_owned(),
            bearer: self.api_key.clone(),
            body: Some(j.to_text()),
        }
    }
}

} // verus!
