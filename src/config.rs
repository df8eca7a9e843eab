use crate::prompt::PromptTemplateVariant;
use vstd::string::*;
use vstd::prelude::*;

verus! {

/// A request parameter: its name and its value as JSON text.
pub type ExtraArg = (String, String);

/// Identifies exactly one callable model and how to talk to it.
#[derive(Clone, Debug)]
pub struct ModelConfig {
    pub provider_id: String,
    pub model_id: String,
    /// Request fields that override those built from the prompt.
    pub extra_args: Vec<ExtraArg>,
    pub template: PromptTemplateVariant,
}

/// The mathematical value of a [`ModelConfig`].
pub struct ModelConfigView {
    pub provider_id: Seq<char>,
    pub model_id: Seq<char>,
    pub extra_args: Seq<(Seq<char>, Seq<char>)>,
    pub template: PromptTemplateVariant,
}

pub open spec fn pair_view(p: (String, String)) -> (Seq<char>, Seq<char>) {
    (p.0@, p.1@)
}

impl View for ModelConfig {
    type V = ModelConfigView;

    open spec fn view(&self) -> ModelConfigView {
        ModelConfigView {
            provider_id: self.provider_id@,
            model_id: self.model_id@,
            extra_args: self.extra_args@.map_values(|p: ExtraArg| pair_view(p)),
            template: self.template,
        }
    }
}

/// A copy of a list of string pairs, with the same values.
pub fn copy_pairs(v: &Vec<(String, String)>) -> (r: Vec<(String, String)>)
    ensures
        r@.map_values(|p: (String, String)| pair_view(p)) == v@.map_values(|p: (String, String)| pair_view(p)),
{
    let mut r: Vec<(String, String)> = Vec::new();
    let mut i: usize = 0;
    while i < v.len()
        invariant
            i <= v.len(),
            r@.len() == i,
            forall|j: int| 0 <= j < i ==> #[trigger] pair_view(r@[j]) == pair_view(v@[j]),
        decreases v.len() - i,
    {
        let p = &v[i];
        r.push((p.0.clone(), p.1.clone()));
        i = i + 1;
    }
    assert(r@.map_values(|p: (String, String)| pair_view(p)) =~= v@.map_values(|p: (String, String)| pair_view(p)));
    r
}

impl ModelConfig {
    /// A copy with the same value.
    pub fn duplicate(&self) -> (r: ModelConfig)
        ensures
            r@ == self@,
    {
        ModelConfig {
            provider_id: self.provider_id.clone(),
            model_id: self.model_id.clone(),
            extra_args: copy_pairs(&self.extra_args),
            template: self.template,
        }
    }
}

/// The number of models in the built-in catalog.
pub const CATALOG_LEN: usize = 10;

/// Model ids and templates of the built-in catalog, all of them Replicate
/// models.
pub open spec fn catalog_entries() -> Seq<(Seq<char>, PromptTemplateVariant)> {
    seq![
        ("kcaverly/nous-hermes-2-yi-34b-gguf"@, PromptTemplateVariant::ChatML),
        ("kcaverly/dolphin-2.6-mixtral-8x7b-gguf"@, PromptTemplateVariant::ChatML),
        ("kcaverly/dolphin-2.5-mixtral-8x7b-gguf"@, PromptTemplateVariant::ChatML),
        ("01-ai/yi-34b-chat"@, PromptTemplateVariant::Yi),
        ("meta/llama-2-70b-chat"@, PromptTemplateVariant::Llama),
        ("meta/llama-2-13b-chat"@, PromptTemplateVariant::Llama),
        ("meta/llama-2-7b-chat"@, PromptTemplateVariant::Llama),
        ("mistralai/mistral-7b-instruct-v0.1"@, PromptTemplateVariant::Mistral),
        ("meta/codellama-34b-instruct"@, PromptTemplateVariant::Llama),
        ("kcaverly/deepseek-coder-33b-instruct-gguf"@, PromptTemplateVariant::Deepseek),
    ]
}

fn replicate_model(model_id: &str, template: PromptTemplateVariant) -> (r: ModelConfig)
    ensures
        r@.provider_id == "Replicate"@,
        r@.model_id == model_id@,
        r@.extra_args.len() == 0,
        r@.template == template,
{
    let r = ModelConfig {
        provider_id: String::from_str("Replicate"),
        model_id: model_id.to_owned(),
        extra_args: Vec::new(),
        template,
    };
    assert(r@.extra_args =~= Seq::<(Seq<char>, Seq<char>)>::empty());
    r
}

/// The built-in catalog of models, in the order they are offered.
pub fn default_catalog() -> (r: Vec<ModelConfig>)
    ensures
        r@.len() == CATALOG_LEN,
        forall|i: int|
            0 <= i < r@.len() ==> {
                &&& (#[trigger] r@[i])@.provider_id == "Replicate"@
                &&& r@[i]@.model_id == catalog_entries()[i].0
                &&& r@[i]@.template == catalog_entries()[i].1
                &&& r@[i]@.extra_args.len() == 0
            },
{
    let mut r: Vec<ModelConfig> = Vec::new();
    r.push(replicate_model("kcaverly/nous-hermes-2-yi-34b-gguf", PromptTemplateVariant::ChatML));
    r.push(replicate_model("kcaverly/dolphin-2.6-mixtral-8x7b-gguf", PromptTemplateVariant::ChatML));
    r.push(replicate_model("kcaverly/dolphin-2.5-mixtral-8x7b-gguf", PromptTemplateVariant::ChatML));
    r.push(replicate_model("01-ai/yi-34b-chat", PromptTemplateVariant::Yi));
    r.push(replicate_model("meta/llama-2-70b-chat", PromptTemplateVariant::Llama));
    r.push(replicate_model("meta/llama-2-13b-chat", PromptTemplateVariant::Llama));
    r.push(replicate_model("meta/llama-2-7b-chat", PromptTemplateVariant::Llama));
    r.push(replicate_model("mistralai/mistral-7b-instruct-v0.1", PromptTemplateVariant::Mistral));
    r.push(replicate_model("meta/codellama-34b-instruct", PromptTemplateVariant::Llama));
    r.push(replicate_model("kcaverly/deepseek-coder-33b-instruct-gguf", PromptTemplateVariant::Deepseek));
    r
}

/// The models on offer and the ones used by default.
#[derive(Clone, Debug)]
pub struct Config {
    pub default_completion_model: ModelConfig,
    pub default_title_model: ModelConfig,
    pub models: Vec<ModelConfig>,
}

impl Config {
    /// The built-in catalog, with its first model as the default for replies
    /// and for titles.
    pub fn builtin() -> (r: Config)
        ensures
            r.models@.len() == CATALOG_LEN,
            forall|i: int|
                0 <= i < r.models@.len() ==> {
                    &&& (#[trigger] r.models@[i])@.provider_id == "Replicate"@
                    &&& r.models@[i]@.model_id == catalog_entries()[i].0
                    &&& r.models@[i]@.template == catalog_entries()[i].1
                },
            r.default_completion_model@ == r.models@[0]@,
            r.default_title_model@ == r.models@[0]@,
    {
        let models = default_catalog();
        let default_completion_model = models[0].duplicate();
        let default_title_model = models[0].duplicate();
        Config { default_completion_model, default_title_model, models }
    }
}

} // verus!
