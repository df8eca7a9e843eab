use archer::config::{default_catalog, Config, ModelConfig};
use archer::prompt::PromptTemplateVariant;
use archer::providers::{split_model_id, ModelError, CompletionProvider, ProviderKind, Replicate, TogetherAI};
use archer::registry::{cycle_next, cycle_previous, CompletionProviderLibrary};

fn config(provider: &str, model: &str) -> ModelConfig {
    ModelConfig {
        provider_id: provider.to_string(),
        model_id: model.to_string(),
        extra_args: Vec::new(),
        template: PromptTemplateVariant::ChatML,
    }
}

#[test]
fn resolve_unknown_provider_is_a_model_mismatch() {
    let registry = CompletionProviderLibrary::new(vec![CompletionProvider::Replicate(Replicate::load(None))]);
    let r = registry.resolve_model(&config("X", "y"));
    assert_eq!(r.err(), Some(ModelError::ModelMismatch));
}

#[test]
fn resolve_known_provider() {
    let registry = CompletionProviderLibrary::load(Some("SECRET-REDACTED".to_string()), None);
    let m = registry.resolve_model(&config("Replicate", "meta/llama-2-70b-chat")).unwrap();
    assert_eq!(m.kind, ProviderKind::Replicate);
    assert_eq!(m.model_config.model_id, "meta/llama-2-70b-chat");
    let m = registry.resolve_model(&config("TogetherAI", "some/model")).unwrap();
    assert_eq!(m.kind, ProviderKind::TogetherAI);
}

#[test]
fn provider_rejects_other_providers_config() {
    let p = TogetherAI::load(None);
    assert_eq!(p.get_model(&config("Replicate", "a/b")).err(), Some(ModelError::ModelMismatch));
    assert!(p.get_model(&config("TogetherAI", "a/b")).is_ok());
    assert_eq!(p.endpoint(), "https://api.together.xyz/inference");
}

#[test]
fn cycling_wraps_at_both_ends() {
    let ids = vec!["A".to_string(), "B".to_string(), "C".to_string()];
    assert_eq!(cycle_next(&ids, &"C".to_string()), "A");
    assert_eq!(cycle_previous(&ids, &"A".to_string()), "C");
    assert_eq!(cycle_next(&ids, &"A".to_string()), "B");
    assert_eq!(cycle_previous(&ids, &"C".to_string()), "B");
    assert_eq!(cycle_next(&ids, &"Z".to_string()), "A");
}

#[test]
fn registry_order_and_credentials() {
    let registry = CompletionProviderLibrary::load(None, Some("SECRET-REDACTED".to_string()));
    assert_eq!(registry.ids(), vec!["TogetherAI".to_string(), "Replicate".to_string()]);
    assert_eq!(registry.next_provider(&"Replicate".to_string()), "TogetherAI");
    assert_eq!(registry.next_provider(&"TogetherAI".to_string()), "Replicate");
    assert_eq!(registry.previous_provider(&"TogetherAI".to_string()), "Replicate");
    assert!(registry.has_credentials(&"TogetherAI".to_string()));
    assert!(!registry.has_credentials(&"Replicate".to_string()));
    assert!(!registry.has_credentials(&"Nobody".to_string()));
    assert!(registry.get_provider(&"Nobody".to_string()).is_none());
}

#[test]
fn list_models_filters_the_catalog() {
    let mut catalog = default_catalog();
    catalog.push(config("TogetherAI", "x/y"));
    let registry = CompletionProviderLibrary::load(None, None);
    let together = registry.get_provider(&"TogetherAI".to_string()).unwrap();
    let models = together.list_models(&catalog);
    assert_eq!(models.len(), 1);
    assert_eq!(models[0].model_id, "x/y");
    let replicate = registry.get_provider(&"Replicate".to_string()).unwrap();
    assert_eq!(replicate.list_models(&catalog).len(), 10);
}

#[test]
fn model_id_splits_into_owner_and_name() {
    assert_eq!(
        split_model_id("meta/llama-2-70b-chat"),
        Some(("meta".to_string(), "llama-2-70b-chat".to_string()))
    );
    assert_eq!(split_model_id("a/b/c"), Some(("a".to_string(), "b".to_string())));
    assert_eq!(split_model_id("plain"), None);
    assert_eq!(split_model_id("/x"), Some(("".to_string(), "x".to_string())));
}

#[test]
fn builtin_config_defaults_to_the_first_model() {
    let c = Config::builtin();
    assert_eq!(c.models.len(), 10);
    assert_eq!(c.default_completion_model.model_id, "kcaverly/nous-hermes-2-yi-34b-gguf");
    assert_eq!(c.default_title_model.model_id, c.models[0].model_id);
    assert_eq!(c.models[3].model_id, "01-ai/yi-34b-chat");
    assert_eq!(c.models[3].template, PromptTemplateVariant::Yi);
}

#[test]
fn registry_lists_models_by_provider_id() {
    let registry = CompletionProviderLibrary::load(None, None);
    let catalog = vec![config("TogetherAI", "t/1"), config("Replicate", "r/1"), config("TogetherAI", "t/2")];
    let models = registry.list_models(&"TogetherAI".to_string(), &catalog);
    assert_eq!(models.len(), 2);
    assert_eq!(models[0].model_id, "t/1");
    assert_eq!(models[1].model_id, "t/2");
    assert!(registry.list_models(&"Nobody".to_string(), &catalog).is_empty());
}
