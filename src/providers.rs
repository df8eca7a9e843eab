//! Completion providers, the models they serve, and the registry that
//! resolves a model configuration to a callable model.

use crate::completion::Message;
use crate::config::{ModelConfig, ModelConfigView};
use crate::prompt::{format_spec, views, PromptView};
use crate::request::{json_quoted, merge_spec, RequestBody};
use crate::ordered::upsert;
use vstd::prelude::*;
use vstd::string::*;

verus! {

/// The id of the Replicate provider.
pub open spec fn replicate_id() -> Seq<char> {
    "Replicate"@
}

/// The id of the TogetherAI provider.
pub open spec fn together_id() -> Seq<char> {
    "TogetherAI"@
}

/// The service a model runs on.
#[derive(Clone, Copy, Debug, PartialEq, Eq, Structural)]
pub enum ProviderKind {
    Replicate,
    TogetherAI,
}

impl ProviderKind {
    pub open spec fn id_spec(self) -> Seq<char> {
        match self {
            ProviderKind::Replicate => replicate_id(),
            ProviderKind::TogetherAI => together_id(),
        }
    }

    /// The provider id, as model configurations name it.
    pub fn get_id(&self) -> (r: String)
        ensures
            r@ == self.id_spec(),
    {
        match self {
            ProviderKind::Replicate => String::from_str("Replicate"),
            ProviderKind::TogetherAI => String::from_str("TogetherAI"),
        }
    }
}

/// Why a model configuration could not be resolved.
#[derive(Clone, Copy, Debug, PartialEq, Eq, Structural)]
pub enum ModelError {
    /// The configuration names a provider other than the one asked, or one
    /// that is not registered.
    ModelMismatch,
}

/// A model that can be called: its provider and its configuration.
#[derive(Clone, Debug)]
pub struct CompletionModel {
    pub kind: ProviderKind,
    pub model_config: ModelConfig,
}

/// The fields that Replicate's prediction input takes from the prompt.
pub open spec fn replicate_inputs(p: PromptView) -> Seq<(Seq<char>, Seq<char>)> {
    upsert(
        upsert(
            upsert(Seq::empty(), "prompt"@, json_quoted(p.prompt)),
            "system_prompt"@,
            json_quoted(p.system_prompt),
        ),
        "prompt_template"@,
        json_quoted(p.prompt_template),
    )
}

/// The fields of TogetherAI's inference request, before the extra parameters.
pub open spec fn together_inputs(p: PromptView, model_id: Seq<char>, stream: bool) -> Seq<(Seq<char>, Seq<char>)> {
    let s0 = upsert(Seq::empty(), "prompt"@, json_quoted(p.full_prompt));
    let s1 = upsert(s0, "model"@, json_quoted(model_id));
    let s2 = upsert(s1, "temperature"@, "0.7"@);
    let s3 = upsert(s2, "top_p"@, "0.7"@);
    let s4 = upsert(s3, "top_k"@, "50"@);
    let s5 = upsert(s4, "max_tokens"@, "2000"@);
    let s6 = upsert(s5, "repetition_penalty"@, "1"@);
    upsert(s6, "stream_tokens"@, if stream { "true"@ } else { "false"@ })
}

/// The request body a model sends for a message list: the fields built from
/// the formatted prompt, with the model's extra parameters laid over them.
pub open spec fn request_spec(kind: ProviderKind, cfg: ModelConfigView, ms: Seq<crate::completion::MessageView>, stream: bool) -> Seq<(Seq<char>, Seq<char>)> {
    let p = format_spec(cfg.template, ms);
    let base = match kind {
        ProviderKind::Replicate => replicate_inputs(p),
        ProviderKind::TogetherAI => together_inputs(p, cfg.model_id, stream),
    };
    merge_spec(base, cfg.extra_args)
}

pub open spec fn slash_free(s: Seq<char>) -> bool {
    forall|i: int| 0 <= i < s.len() ==> s[i] != '/'
}

/// `owner` and `name` are the first two `/`-separated parts of `id`.
pub open spec fn splits_into(id: Seq<char>, owner: Seq<char>, name: Seq<char>) -> bool {
    let head = owner + "/"@ + name;
    &&& slash_free(owner)
    &&& slash_free(name)
    &&& head.len() <= id.len()
    &&& id.subrange(0, head.len() as int) == head
    &&& (head.len() == id.len() || id[head.len() as int] == '/')
}

/// The first position of `c` in `s` at or after `from`, or the length of `s`.
fn find_char(s: &str, c: char, from: usize) -> (r: usize)
    requires
        from <= s@.len(),
    ensures
        from <= r <= s@.len(),
        r < s@.len() ==> s@[r as int] == c,
        forall|i: int| from <= i < r ==> s@[i] != c,
{
    let n = s.unicode_len();
    let mut i = from;
    while i < n
        invariant
            n == s@.len(),
            from <= i <= n,
            forall|j: int| from <= j < i ==> s@[j] != c,
        decreases n - i,
    {
        if s.get_char(i) == c {
            return i;
        }
        i = i + 1;
    }
    i
}

/// Splits a model id of the form `owner/name` into its first two parts;
/// `None` where it holds no `/`.
pub fn split_model_id(id: &str) -> (r: Option<(String, String)>)
    ensures
        r is None <==> slash_free(id@),
        r matches Some((owner, name)) ==> splits_into(id@, owner@, name@),
{
    let n = id.unicode_len();
    let first = find_char(id, '/', 0);
    if first == n {
        return None;
    }
    let second = find_char(id, '/', first + 1);
    let owner = id.substring_char(0, first).to_owned();
    let name = id.substring_char(first + 1, second).to_owned();
    proof {
        reveal_strlit("/");
        let head = owner@ + "/"@ + name@;
        assert(head =~= id@.subrange(0, second as int));
    }
    Some((owner, name))
}

impl CompletionModel {
    /// The request body for `messages`; `stream` asks TogetherAI for streamed
    /// tokens (Replicate takes that flag beside the body).
    pub fn build_request(&self, messages: &Vec<Message>, stream: bool) -> (r: RequestBody)
        ensures
            r.wf(),
            r@ == request_spec(self.kind, self.model_config@, views(messages@), stream),
    {
        let p = self.model_config.template.generate_prompt(messages);
        let mut body = RequestBody::new();
        match self.kind {
            ProviderKind::Replicate => {
                body.set_text("prompt", p.prompt.as_str());
                body.set_text("system_prompt", p.system_prompt.as_str());
                body.set_text("prompt_template", p.prompt_template.as_str());
            },
            ProviderKind::TogetherAI => {
                body.set_text("prompt", p.full_prompt.as_str());
                body.set_text("model", self.model_config.model_id.as_str());
                body.set(String::from_str("temperature"), String::from_str("0.7"));
                body.set(String::from_str("top_p"), String::from_str("0.7"));
                body.set(String::from_str("top_k"), String::from_str("50"));
                body.set(String::from_str("max_tokens"), String::from_str("2000"));
                body.set(String::from_str("repetition_penalty"), String::from_str("1"));
                if stream {
                    body.set(String::from_str("stream_tokens"), String::from_str("true"));
                } else {
                    body.set(String::from_str("stream_tokens"), String::from_str("false"));
                }
            },
        }
        body.merge(&self.model_config.extra_args);
        body
    }

    /// For a Replicate model, the owner and name its id is made of.
    pub fn get_model_details(&self) -> (r: Option<(String, String)>)
        ensures
            r is None <==> slash_free(self.model_config@.model_id),
            r matches Some((owner, name)) ==> splits_into(self.model_config@.model_id, owner@, name@),
    {
        split_model_id(self.model_config.model_id.as_str())
    }
}

/// The configurations among `cs` that name provider `id`, in catalog order.
pub open spec fn models_of(cs: Seq<ModelConfigView>, id: Seq<char>) -> Seq<ModelConfigView>
    decreases cs.len(),
{
    if cs.len() == 0 {
        Seq::empty()
    } else {
        let rest = models_of(cs.drop_last(), id);
        if cs.last().provider_id == id {
            rest.push(cs.last())
        } else {
            rest
        }
    }
}

pub open spec fn config_views(cs: Seq<ModelConfig>) -> Seq<ModelConfigView> {
    cs.map_values(|c: ModelConfig| c@)
}

/// The models of a catalog that name provider `id`, in catalog order.
pub fn catalog_models(id: &String, catalog: &Vec<ModelConfig>) -> (r: Vec<ModelConfig>)
    ensures
        config_views(r@) == models_of(config_views(catalog@), id@),
{
    let ghost cs = config_views(catalog@);
    let mut r: Vec<ModelConfig> = Vec::new();
    let mut i: usize = 0;
    while i < catalog.len()
        invariant
            i <= catalog.len(),
            cs == config_views(catalog@),
            config_views(r@) == models_of(cs.take(i as int), id@),
        decreases catalog.len() - i,
    {
        assert(cs.take(i + 1).drop_last() =~= cs.take(i as int));
        assert(cs.take(i + 1).last() == catalog@[i as int]@);
        if catalog[i].provider_id == *id {
            let ghost before = r@;
            r.push(catalog[i].duplicate());
            assert(config_views(r@) =~= config_views(before).push(catalog@[i as int]@));
        }
        i = i + 1;
    }
    assert(cs.take(catalog.len() as int) =~= cs);
    r
}

/// A model of provider `kind` for `cfg`, where `cfg` names that provider.
fn model_for(kind: ProviderKind, cfg: &ModelConfig) -> (r: Result<CompletionModel, ModelError>)
    ensures
        r is Ok <==> cfg@.provider_id == kind.id_spec(),
        r matches Ok(m) ==> m.kind == kind && m.model_config@ == cfg@,
        r matches Err(e) ==> e == ModelError::ModelMismatch,
{
    if cfg.provider_id == kind.get_id() {
        Ok(CompletionModel { kind, model_config: cfg.duplicate() })
    } else {
        Err(ModelError::ModelMismatch)
    }
}

/// The Replicate provider and its API key, if one was found.
#[derive(Clone, Debug, Default)]
pub struct Replicate {
    api_key: Option<String>,
}

impl Replicate {
    pub closed spec fn credentials_spec(&self) -> bool {
        self.api_key is Some
    }

    /// The provider with the key read at start-up.
    pub fn load(api_key: Option<String>) -> (r: Replicate)
        ensures
            r.credentials_spec() == (api_key is Some),
    {
        Replicate { api_key }
    }

    pub fn has_credentials(&self) -> (r: bool)
        ensures
            r == self.credentials_spec(),
    {
        self.api_key.is_some()
    }

    /// The API key found at start-up.
    pub fn api_key(&self) -> (r: Option<String>)
        ensures
            (r is Some) == self.credentials_spec(),
    {
        match &self.api_key {
            Some(k) => Some(k.clone()),
            None => None,
        }
    }

    pub fn get_id(&self) -> (r: String)
        ensures
            r@ == replicate_id(),
    {
        ProviderKind::Replicate.get_id()
    }

    /// The model for `cfg`; fails where `cfg` names another provider.
    pub fn get_model(&self, cfg: &ModelConfig) -> (r: Result<CompletionModel, ModelError>)
        ensures
            r is Ok <==> cfg@.provider_id == replicate_id(),
            r matches Ok(m) ==> m.kind == ProviderKind::Replicate && m.model_config@ == cfg@,
            r matches Err(e) ==> e == ModelError::ModelMismatch,
    {
        model_for(ProviderKind::Replicate, cfg)
    }

    /// The catalog's models of this provider.
    pub fn list_models(&self, catalog: &Vec<ModelConfig>) -> (r: Vec<ModelConfig>)
        ensures
            config_views(r@) == models_of(config_views(catalog@), replicate_id()),
    {
        catalog_models(&ProviderKind::Replicate.get_id(), catalog)
    }
}

/// The TogetherAI provider, its API key if one was found, and its base URL.
#[derive(Clone, Debug)]
pub struct TogetherAI {
    api_key: Option<String>,
    base_url: String,
}

impl TogetherAI {
    pub closed spec fn credentials_spec(&self) -> bool {
        self.api_key is Some
    }

    pub closed spec fn base_url_spec(&self) -> Seq<char> {
        self.base_url@
    }

    /// The provider with the key read at start-up.
    pub fn load(api_key: Option<String>) -> (r: TogetherAI)
        ensures
            r.credentials_spec() == (api_key is Some),
            r.base_url_spec() == "https://api.together.xyz"@,
    {
        TogetherAI { api_key, base_url: String::from_str("https://api.together.xyz") }
    }

    pub fn has_credentials(&self) -> (r: bool)
        ensures
            r == self.credentials_spec(),
    {
        self.api_key.is_some()
    }

    /// The API key found at start-up.
    pub fn api_key(&self) -> (r: Option<String>)
        ensures
            (r is Some) == self.credentials_spec(),
    {
        match &self.api_key {
            Some(k) => Some(k.clone()),
            None => None,
        }
    }

    pub fn get_id(&self) -> (r: String)
        ensures
            r@ == together_id(),
    {
        ProviderKind::TogetherAI.get_id()
    }

    /// The URL that inference requests go to.
    pub fn endpoint(&self) -> (r: String)
        ensures
            r@ == self.base_url_spec() + "/inference"@,
    {
        let mut r = self.base_url.clone();
        r.append("/inference");
        r
    }

    /// The model for `cfg`; fails where `cfg` names another provider.
    pub fn get_model(&self, cfg: &ModelConfig) -> (r: Result<CompletionModel, ModelError>)
        ensures
            r is Ok <==> cfg@.provider_id == together_id(),
            r matches Ok(m) ==> m.kind == ProviderKind::TogetherAI && m.model_config@ == cfg@,
            r matches Err(e) ==> e == ModelError::ModelMismatch,
    {
        model_for(ProviderKind::TogetherAI, cfg)
    }

    /// The catalog's models of this provider.
    pub fn list_models(&self, catalog: &Vec<ModelConfig>) -> (r: Vec<ModelConfig>)
        ensures
            config_views(r@) == models_of(config_views(catalog@), together_id()),
    {
        catalog_models(&ProviderKind::TogetherAI.get_id(), catalog)
    }
}

/// A registered provider.
#[derive(Clone, Debug)]
pub enum CompletionProvider {
    Replicate(Replicate),
    TogetherAI(TogetherAI),
}

impl CompletionProvider {
    pub open spec fn kind_spec(&self) -> ProviderKind {
        match self {
            CompletionProvider::Replicate(_) => ProviderKind::Replicate,
            CompletionProvider::TogetherAI(_) => ProviderKind::TogetherAI,
        }
    }

    pub open spec fn credentials_spec(&self) -> bool {
        match self {
            CompletionProvider::Replicate(p) => p.credentials_spec(),
            CompletionProvider::TogetherAI(p) => p.credentials_spec(),
        }
    }

    pub fn kind(&self) -> (r: ProviderKind)
        ensures
            r == self.kind_spec(),
    {
        match self {
            CompletionProvider::Replicate(_) => ProviderKind::Replicate,
            CompletionProvider::TogetherAI(_) => ProviderKind::TogetherAI,
        }
    }

    pub fn get_id(&self) -> (r: String)
        ensures
            r@ == self.kind_spec().id_spec(),
    {
        self.kind().get_id()
    }

    /// The API key found at start-up.
    pub fn api_key(&self) -> (r: Option<String>)
        ensures
            (r is Some) == self.credentials_spec(),
    {
        match self {
            CompletionProvider::Replicate(p) => p.api_key(),
            CompletionProvider::TogetherAI(p) => p.api_key(),
        }
    }

    /// Whether the provider's secret was present when it was loaded.
    pub fn has_credentials(&self) -> (r: bool)
        ensures
            r == self.credentials_spec(),
    {
        match self {
            CompletionProvider::Replicate(p) => p.has_credentials(),
            CompletionProvider::TogetherAI(p) => p.has_credentials(),
        }
    }

    /// The model for `cfg`; fails where `cfg` names another provider.
    pub fn get_model(&self, cfg: &ModelConfig) -> (r: Result<CompletionModel, ModelError>)
        ensures
            r is Ok <==> cfg@.provider_id == self.kind_spec().id_spec(),
            r matches Ok(m) ==> m.kind == self.kind_spec() && m.model_config@ == cfg@,
            r matches Err(e) ==> e == ModelError::ModelMismatch,
    {
        model_for(self.kind(), cfg)
    }

    /// The catalog's models of this provider.
    pub fn list_models(&self, catalog: &Vec<ModelConfig>) -> (r: Vec<ModelConfig>)
        ensures
            config_views(r@) == models_of(config_views(catalog@), self.kind_spec().id_spec()),
    {
        catalog_models(&self.get_id(), catalog)
    }
}

} // verus!
