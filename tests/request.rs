use archer::completion::{CompletionStatus, Message, MessageRole};
use archer::config::ModelConfig;
use archer::prompt::PromptTemplateVariant;
use archer::providers::{CompletionModel, ProviderKind};
use archer::request::RequestBody;

#[test]
fn text_values_are_quoted_and_escaped() {
    let mut body = RequestBody::new();
    body.set_text("prompt", "say \"hi\"\n");
    assert_eq!(body.to_json(), "{\"prompt\":\"say \\\"hi\\\"\\n\"}");
}

#[test]
fn merge_overrides_in_place_and_appends_new_fields() {
    let mut body = RequestBody::new();
    body.set("a".to_string(), "1".to_string());
    body.set("b".to_string(), "2".to_string());
    body.merge(&vec![("a".to_string(), "10".to_string()), ("c".to_string(), "3".to_string())]);
    assert_eq!(body.to_json(), "{\"a\":10,\"b\":2,\"c\":3}");
}

#[test]
fn empty_body_is_an_empty_object() {
    assert_eq!(RequestBody::new().to_json(), "{}");
}

fn model(kind: ProviderKind, extra: Vec<(String, String)>) -> CompletionModel {
    CompletionModel {
        kind,
        model_config: ModelConfig {
            provider_id: "Replicate".to_string(),
            model_id: "owner/name".to_string(),
            extra_args: extra,
            template: PromptTemplateVariant::Mistral,
        },
    }
}

#[test]
fn replicate_request_carries_prompt_parts() {
    let m = model(ProviderKind::Replicate, vec![("max_new_tokens".to_string(), "500".to_string())]);
    let messages = vec![Message::new(
        MessageRole::User,
        "Hi".to_string(),
        m.model_config.clone(),
        CompletionStatus::Succeeded,
    )];
    let body = m.build_request(&messages, true);
    assert_eq!(
        body.to_json(),
        "{\"prompt\":\"<s>[INST] Hi [/INST]\",\"system_prompt\":\"\",\"prompt_template\":\"{prompt}\",\"max_new_tokens\":500}"
    );
    assert_eq!(m.get_model_details(), Some(("owner".to_string(), "name".to_string())));
}

#[test]
fn together_request_extra_args_override_defaults() {
    let m = model(ProviderKind::TogetherAI, vec![("temperature".to_string(), "0.2".to_string())]);
    let body = m.build_request(&Vec::new(), false);
    assert_eq!(
        body.to_json(),
        "{\"prompt\":\"<s>\",\"model\":\"owner/name\",\"temperature\":0.2,\"top_p\":0.7,\"top_k\":50,\"max_tokens\":2000,\"repetition_penalty\":1,\"stream_tokens\":false}"
    );
}
