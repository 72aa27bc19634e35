use openairs::client::{completion_request, Method, OpenAIClient, OpenAIRequest};
use openairs::completions::CompletionRequest;
use openairs::edits::EditRequest;
use openairs::error::OpenAIError;
use openairs::images::CreateImageRequest;
use openairs::models::{CompletionModel, EditModel};

fn tiny_model(max_tokens: usize) -> CompletionModel {
    CompletionModel { name: "text-davinci-003", max_tokens }
}

#[test]
fn prompt_as_long_as_the_ceiling_is_refused() {
    let model = tiny_model(5);
    let r = completion_request(&model, "abcde");
    assert!(matches!(r, Err(OpenAIError::TooManyTokens(_))));
}

#[test]
fn prompt_longer_than_the_ceiling_is_refused() {
    let client = OpenAIClient::new("key".to_string());
    let r = client.complete_request(&tiny_model(3), "abcdef");
    assert!(matches!(r, Err(OpenAIError::TooManyTokens(_))));
}

#[test]
fn empty_prompt_on_empty_model_is_refused() {
    let r = completion_request(&tiny_model(0), "");
    assert!(matches!(r, Err(OpenAIError::TooManyTokens(_))));
}

#[test]
fn token_limit_is_what_the_prompt_leaves() {
    let model = CompletionModel::text_davinci_003();
    let r = completion_request(&model, "hello").unwrap();
    assert_eq!(r.model, "text-davinci-003");
    assert_eq!(r.prompt, "hello");
    assert_eq!(r.max_tokens, Some(4092));
    assert_eq!(r.temperature, None);
}

#[test]
fn token_limit_counts_bytes() {
    let r = completion_request(&tiny_model(10), "héllo").unwrap();
    assert_eq!(r.max_tokens, Some(4));
}

#[test]
fn complete_request_is_a_post_with_the_body() {
    let client = OpenAIClient::new("sk-test".to_string());
    let h = client.complete_request(&CompletionModel::text_davinci_003(), "hi").unwrap();
    assert_eq!(h.method, Method::Post);
    assert_eq!(h.url, "https://api.openai.com/v1/completions");
    assert_eq!(h.bearer, "sk-test");
    assert_eq!(
        h.body.unwrap(),
        r#"{"model":"text-davinci-003","prompt":"hi","max_tokens":4095}"#
    );
}

#[test]
fn body_without_temperature_has_no_temperature_key() {
    let client = OpenAIClient::new("k".to_string());
    let req = CompletionRequest::new("text-davinci-003", "a poem");
    let body = client.prepare_request(&req).body.unwrap();
    assert!(!body.contains("temperature"));
    assert!(!body.contains("null"));
    let v: serde_json::Value = serde_json::from_str(&body).unwrap();
    assert!(v.get("temperature").is_none());
    assert!(v.get("max_tokens").is_none());
}

#[test]
fn temperature_is_written_in_hundredths() {
    let client = OpenAIClient::new("k".to_string());
    let req = CompletionRequest::new("text-davinci-003", "a poem").temperature(30);
    let body = client.prepare_request(&req).body.unwrap();
    assert_eq!(body, r#"{"model":"text-davinci-003","prompt":"a poem","temperature":0.30}"#);
    let v: serde_json::Value = serde_json::from_str(&body).unwrap();
    assert_eq!(v["temperature"].as_f64(), Some(0.3));
}

#[test]
fn temperature_and_token_limit_together() {
    let req = CompletionRequest::new("m", "p").temperature(150).max_tokens(16);
    let body = req.to_json().to_text();
    assert_eq!(body, r#"{"model":"m","prompt":"p","temperature":1.50,"max_tokens":16}"#);
}

#[test]
fn prompt_text_is_escaped() {
    let req = CompletionRequest::new("m", "say \"hi\"\n");
    let body = req.to_json().to_text();
    assert_eq!(body, r#"{"model":"m","prompt":"say \"hi\"\n"}"#);
    let v: serde_json::Value = serde_json::from_str(&body).unwrap();
    assert_eq!(v["prompt"].as_str(), Some("say \"hi\"\n"));
}

#[test]
fn edit_request_body() {
    let client = OpenAIClient::new("k".to_string());
    let h = client.edit_request(&EditModel::text_davinci_edit_001(), "helo", "Fix the spelling");
    assert_eq!(h.url, "https://api.openai.com/v1/edits");
    assert_eq!(h.method, Method::Post);
    assert_eq!(
        h.body.unwrap(),
        r#"{"model":"text-davinci-edit-001","input":"helo","instruction":"Fix the spelling"}"#
    );
}

#[test]
fn edit_request_options() {
    let req = EditRequest::new("code-davinci-edit-001", "Add types").temperature(5);
    assert_eq!(req.endpoint(), "https://api.openai.com/v1/edits");
    assert_eq!(
        req.to_json().to_text(),
        r#"{"model":"code-davinci-edit-001","instruction":"Add types","temperature":0.05}"#
    );
}

#[test]
fn image_request_body() {
    let client = OpenAIClient::new("k".to_string());
    let h = client.create_image_request("a red fox");
    assert_eq!(h.url, "https://api.openai.com/v1/images/generations");
    assert_eq!(h.body.unwrap(), r#"{"prompt":"a red fox"}"#);
    let req = CreateImageRequest::new("a red fox").n(2).size("256x256");
    assert_eq!(req.to_json().to_text(), r#"{"prompt":"a red fox","n":2,"size":"256x256"}"#);
}

#[test]
fn list_models_request_is_a_get() {
    let client = OpenAIClient::new("sk-x".to_string());
    let h = client.list_models_request();
    assert_eq!(h.method, Method::Get);
    assert_eq!(h.url, "https://api.openai.com/v1/models");
    assert_eq!(h.bearer, "sk-x");
    assert_eq!(h.body, None);
}

#[test]
fn one_handle_many_requests_no_cross_talk() {
    let client = OpenAIClient::new("k".to_string());
    let model = CompletionModel::text_davinci_003();
    let prompts: Vec<String> = (0..8).map(|i| format!("token-{}", i)).collect();
    let calls: Vec<_> = prompts
        .iter()
        .map(|p| client.clone().complete_request(&model, p).unwrap())
        .collect();
    for (p, h) in prompts.iter().zip(calls.iter()) {
        let v: serde_json::Value = serde_json::from_str(h.body.as_ref().unwrap()).unwrap();
        assert_eq!(v["prompt"].as_str(), Some(p.as_str()));
    }
    assert_eq!(client.api_key, "k");
}

#[test]
fn catalog_values() {
    assert_eq!(CompletionModel::text_davinci_003().max_tokens, 4097);
    assert_eq!(CompletionModel::text_ada_001().name, "text-ada-001");
    assert_eq!(CompletionModel::text_curie_001().max_tokens, 2049);
    assert_eq!(CompletionModel::text_babbage_001().name, "text-babbage-001");
    assert_eq!(EditModel::code_davinci_edit_001().name, "code-davinci-edit-001");
}
