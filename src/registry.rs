//! The provider registry: providers registered once, in a fixed order, and
//! looked up by id.

use crate::config::ModelConfig;
use crate::providers::{catalog_models, config_views, models_of};
use crate::providers::{CompletionModel, ModelError, CompletionProvider, ProviderKind, Replicate, TogetherAI};
use vstd::prelude::*;

verus! {

pub open spec fn string_views(v: Seq<String>) -> Seq<Seq<char>> {
    v.map_values(|s: String| s@)
}

/// The first position of `x` in `ids`, or -1.
pub open spec fn first_pos(ids: Seq<Seq<char>>, x: Seq<char>) -> int {
    if exists|i: int| 0 <= i < ids.len() && ids[i] == x {
        choose|i: int| 0 <= i < ids.len() && ids[i] == x && forall|j: int| 0 <= j < i ==> ids[j] != x
    } else {
        -1
    }
}

/// The id after `x`, wrapping from the last to the first; the first where `x`
/// is not among `ids`.
pub open spec fn next_in_cycle(ids: Seq<Seq<char>>, x: Seq<char>) -> Seq<char> {
    let p = first_pos(ids, x);
    if 0 <= p && p + 1 < ids.len() {
        ids[p + 1]
    } else {
        ids[0]
    }
}

/// The id before `x`, wrapping from the first to the last; the last where `x`
/// is not among `ids`.
pub open spec fn previous_in_cycle(ids: Seq<Seq<char>>, x: Seq<char>) -> Seq<char> {
    let p = first_pos(ids, x);
    if p > 0 {
        ids[p - 1]
    } else {
        ids.last()
    }
}

/// Finds the first position of `x` in `ids`.
fn position_of(ids: &Vec<String>, x: &String) -> (r: Option<usize>)
    ensures
        r is None <==> first_pos(string_views(ids@), x@) == -1,
        r matches Some(i) ==> i == first_pos(string_views(ids@), x@),
        first_pos(string_views(ids@), x@) >= -1,
        first_pos(string_views(ids@), x@) < ids@.len(),
{
    let ghost vs = string_views(ids@);
    let mut i: usize = 0;
    while i < ids.len()
        invariant
            i <= ids.len(),
            vs == string_views(ids@),
            forall|j: int| 0 <= j < i ==> vs[j] != x@,
        decreases ids.len() - i,
    {
        if ids[i] == *x {
            proof {
                assert(vs[i as int] == x@);
                let p = first_pos(vs, x@);
                assert(0 <= p < vs.len() && vs[p] == x@ && forall|j: int| 0 <= j < p ==> vs[j] != x@);
                if p < i {
                } else if p > i {
                    assert(vs[i as int] != x@);
                }
            }
            return Some(i);
        }
        assert(vs[i as int] != x@);
        i = i + 1;
    }
    assert(!exists|j: int| 0 <= j < vs.len() && vs[j] == x@);
    None
}

/// The id after `current` in `ids`, wrapping around at the end.
pub fn cycle_next(ids: &Vec<String>, current: &String) -> (r: String)
    requires
        ids@.len() > 0,
    ensures
        r@ == next_in_cycle(string_views(ids@), current@),
{
    let p = position_of(ids, current);
    match p {
        Some(i) => {
            if i < ids.len() - 1 {
                ids[i + 1].clone()
            } else {
                ids[0].clone()
            }
        },
        None => ids[0].clone(),
    }
}

/// The id before `current` in `ids`, wrapping around at the start.
pub fn cycle_previous(ids: &Vec<String>, current: &String) -> (r: String)
    requires
        ids@.len() > 0,
    ensures
        r@ == previous_in_cycle(string_views(ids@), current@),
{
    let p = position_of(ids, current);
    match p {
        Some(i) => {
            if i > 0 {
                ids[i - 1].clone()
            } else {
                ids[ids.len() - 1].clone()
            }
        },
        None => ids[ids.len() - 1].clone(),
    }
}

pub open spec fn provider_ids(ps: Seq<CompletionProvider>) -> Seq<Seq<char>> {
    ps.map_values(|p: CompletionProvider| p.kind_spec().id_spec())
}

/// Providers keyed by id, in the order they were registered. Read-only once
/// built.
#[derive(Debug)]
pub struct CompletionProviderLibrary {
    providers: Vec<CompletionProvider>,
}

impl View for CompletionProviderLibrary {
    type V = Seq<CompletionProvider>;

    closed spec fn view(&self) -> Seq<CompletionProvider> {
        self.providers@
    }
}

/// No two providers of `ps` share a kind.
pub open spec fn kinds_distinct(ps: Seq<CompletionProvider>) -> bool {
    forall|i: int, j: int|
        0 <= i < ps.len() && 0 <= j < ps.len() && i != j ==> (#[trigger] ps[i]).kind_spec() != (#[trigger] ps[j]).kind_spec()
}

proof fn lemma_ids_distinct(ps: Seq<CompletionProvider>, i: int, j: int)
    requires
        0 <= i < ps.len(),
        0 <= j < ps.len(),
        ps[i].kind_spec().id_spec() == ps[j].kind_spec().id_spec(),
    ensures
        ps[i].kind_spec() == ps[j].kind_spec(),
{
    reveal_strlit("Replicate");
    reveal_strlit("TogetherAI");
    if ps[i].kind_spec() != ps[j].kind_spec() {
        assert(("Replicate"@)[0] != ("TogetherAI"@)[0]);
    }
}

impl CompletionProviderLibrary {
    #[verifier::type_invariant]
    spec fn inv(&self) -> bool {
        kinds_distinct(self.providers@)
    }

    /// A registry of `providers`, in that order.
    pub fn new(providers: Vec<CompletionProvider>) -> (r: CompletionProviderLibrary)
        requires
            kinds_distinct(providers@),
        ensures
            r@ == providers@,
    {
        CompletionProviderLibrary { providers }
    }

    /// The two known providers, TogetherAI registered first, each with the key
    /// found for it at start-up.
    pub fn load(replicate_key: Option<String>, together_key: Option<String>) -> (r: CompletionProviderLibrary)
        ensures
            r@.len() == 2,
            r@[0].kind_spec() == ProviderKind::TogetherAI,
            r@[0].credentials_spec() == (together_key is Some),
            r@[1].kind_spec() == ProviderKind::Replicate,
            r@[1].credentials_spec() == (replicate_key is Some),
    {
        let mut providers: Vec<CompletionProvider> = Vec::new();
        providers.push(CompletionProvider::TogetherAI(TogetherAI::load(together_key)));
        providers.push(CompletionProvider::Replicate(Replicate::load(replicate_key)));
        assert(kinds_distinct(providers@)) by {
            assert forall|i: int, j: int|
                0 <= i < providers@.len() && 0 <= j < providers@.len() && i != j implies (#[trigger] providers@[i]).kind_spec()
                != (#[trigger] providers@[j]).kind_spec() by {
                assert(providers@[0].kind_spec() == ProviderKind::TogetherAI);
                assert(providers@[1].kind_spec() == ProviderKind::Replicate);
            }
        }
        CompletionProviderLibrary { providers }
    }

    /// The registered ids, in registration order.
    pub fn ids(&self) -> (r: Vec<String>)
        ensures
            string_views(r@) == provider_ids(self@),
    {
        let mut r: Vec<String> = Vec::new();
        let mut i: usize = 0;
        while i < self.providers.len()
            invariant
                i <= self.providers.len(),
                string_views(r@) == provider_ids(self@).take(i as int),
            decreases self.providers.len() - i,
        {
            let ghost before = r@;
            r.push(self.providers[i].get_id());
            assert(string_views(r@) =~= string_views(before).push(provider_ids(self@)[i as int]));
            assert(provider_ids(self@).take(i + 1) =~= provider_ids(self@).take(i as int).push(provider_ids(self@)[i as int]));
            i = i + 1;
        }
        assert(provider_ids(self@).take(self.providers.len() as int) =~= provider_ids(self@));
        r
    }

    /// The provider registered under `id`, if any.
    pub fn get_provider(&self, id: &String) -> (r: Option<&CompletionProvider>)
        ensures
            r is None <==> !provider_ids(self@).contains(id@),
            r matches Some(p) ==> p.kind_spec().id_spec() == id@ && self@.contains(*p),
    {
        let mut i: usize = 0;
        while i < self.providers.len()
            invariant
                i <= self.providers.len(),
                forall|j: int| 0 <= j < i ==> provider_ids(self@)[j] != id@,
            decreases self.providers.len() - i,
        {
            if self.providers[i].get_id() == *id {
                assert(self@[i as int] == self.providers@[i as int]);
                assert(provider_ids(self@)[i as int] == id@);
                return Some(&self.providers[i]);
            }
            i = i + 1;
        }
        proof {
            if provider_ids(self@).contains(id@) {
                let j = choose|j: int| 0 <= j < provider_ids(self@).len() && provider_ids(self@)[j] == id@;
                assert(provider_ids(self@)[j] != id@);
            }
        }
        None
    }

    /// Whether provider `id` is registered and had its secret at start-up.
    pub fn has_credentials(&self, id: &String) -> (r: bool)
        ensures
            r == exists|i: int|
                0 <= i < self@.len() && (#[trigger] self@[i]).kind_spec().id_spec() == id@ && self@[i].credentials_spec(),
    {
        match self.get_provider(id) {
            Some(p) => {
                let r = p.has_credentials();
                proof {
                    use_type_invariant(self);
                    if !r {
                        if exists|i: int|
                            0 <= i < self@.len() && (#[trigger] self@[i]).kind_spec().id_spec() == id@ && self@[i].credentials_spec() {
                            let i = choose|i: int|
                                0 <= i < self@.len() && (#[trigger] self@[i]).kind_spec().id_spec() == id@ && self@[i].credentials_spec();
                            let k = choose|k: int| 0 <= k < self@.len() && self@[k] == *p;
                            lemma_ids_distinct(self@, i, k);
                        }
                    } else {
                        let k = choose|k: int| 0 <= k < self@.len() && self@[k] == *p;
                        assert(self@[k].kind_spec().id_spec() == id@);
                    }
                }
                r
            },
            None => {
                proof {
                    if exists|i: int|
                        0 <= i < self@.len() && (#[trigger] self@[i]).kind_spec().id_spec() == id@ && self@[i].credentials_spec() {
                        let i = choose|i: int|
                            0 <= i < self@.len() && (#[trigger] self@[i]).kind_spec().id_spec() == id@ && self@[i].credentials_spec();
                        assert(provider_ids(self@)[i] == id@);
                    }
                }
                false
            },
        }
    }

    /// The callable model for `cfg`. Fails with `ModelMismatch` where no
    /// registered provider has the id that `cfg` names.
    pub fn resolve_model(&self, cfg: &ModelConfig) -> (r: Result<CompletionModel, ModelError>)
        ensures
            r is Ok <==> provider_ids(self@).contains(cfg@.provider_id),
            r matches Ok(m) ==> m.kind.id_spec() == cfg@.provider_id && m.model_config@ == cfg@,
            r matches Err(e) ==> e == ModelError::ModelMismatch,
    {
        match self.get_provider(&cfg.provider_id) {
            Some(p) => p.get_model(cfg),
            None => Err(ModelError::ModelMismatch),
        }
    }

    /// The catalog's models of provider `id`, in catalog order.
    pub fn list_models(&self, id: &String, catalog: &Vec<ModelConfig>) -> (r: Vec<ModelConfig>)
        ensures
            config_views(r@) == models_of(config_views(catalog@), id@),
    {
        catalog_models(id, catalog)
    }

    /// The provider registered after `id`, wrapping around to the first.
    pub fn next_provider(&self, id: &String) -> (r: String)
        requires
            self@.len() > 0,
        ensures
            r@ == next_in_cycle(provider_ids(self@), id@),
    {
        let ids = self.ids();
        cycle_next(&ids, id)
    }

    /// The provider registered before `id`, wrapping around to the last.
    pub fn previous_provider(&self, id: &String) -> (r: String)
        requires
            self@.len() > 0,
        ensures
            r@ == previous_in_cycle(provider_ids(self@), id@),
    {
        let ids = self.ids();
        cycle_previous(&ids, id)
    }
}

pub open spec fn ids_distinct(ids: Seq<Seq<char>>) -> bool {
    forall|i: int, j: int| 0 <= i < ids.len() && 0 <= j < ids.len() && i != j ==> ids[i] != ids[j]
}

/// Cycling wraps at both ends: among distinct ids, the one after the last is
/// the first, and the one before the first is the last.
pub proof fn lemma_cycle_wraps(ids: Seq<Seq<char>>)
    requires
        ids.len() > 0,
        ids_distinct(ids),
    ensures
        next_in_cycle(ids, ids.last()) == ids[0],
        previous_in_cycle(ids, ids[0]) == ids.last(),
{
    let n = ids.len() as int;
    assert(ids[n - 1] == ids.last());
    let p = first_pos(ids, ids.last());
    assert(0 <= p < n && ids[p] == ids.last());
    assert(p == n - 1);
    let q = first_pos(ids, ids[0]);
    assert(0 <= q < n && ids[q] == ids[0] && forall|j: int| 0 <= j < q ==> #[trigger] ids[j] != ids[0]);
    assert(q == 0);
}

} // verus!
