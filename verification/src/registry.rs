//! The models the worker has loaded, by name.

use vstd::hash_map::StringHashMap;
use vstd::prelude::*;

verus! {

/// A mapping from model name to loaded model.
///
/// Names are case-sensitive and each name stands for at most one model. The
/// registry is filled while the worker loads and only read afterwards. Its
/// view is the mapping itself.
#[verifier::reject_recursive_types(M)]
pub struct ModelRegistry<M> {
    models: StringHashMap<M>,
}

impl<M> View for ModelRegistry<M> {
    type V = Map<Seq<char>, M>;

    closed spec fn view(&self) -> Map<Seq<char>, M> {
        self.models@
    }
}

impl<M> ModelRegistry<M> {
    /// A registry that holds no model.
    pub fn new() -> (registry: Self)
        ensures
            registry@ == Map::<Seq<char>, M>::empty(),
    {
        ModelRegistry { models: StringHashMap::new() }
    }

    /// Registers `model` under `name`. A model registered earlier under the
    /// same name is replaced; every other entry stays.
    pub fn insert(&mut self, name: String, model: M)
        ensures
            final(self)@ == old(self)@.insert(name@, model),
    {
        self.models.insert(name, model);
    }

    /// The model registered under `name`, if there is one.
    pub fn get(&self, name: &str) -> (model: Option<&M>)
        ensures
            model is Some <==> self@.contains_key(name@),
            model matches Some(m) ==> *m == self@[name@],
    {
        self.models.get(name)
    }

    /// Whether a model is registered under `name`.
    pub fn contains(&self, name: &str) -> (found: bool)
        ensures
            found == self@.contains_key(name@),
    {
        self.models.contains_key(name)
    }

    /// How many models are registered.
    pub fn len(&self) -> (count: usize)
        ensures
            count == self@.len(),
    {
        self.models.len()
    }

    /// Whether no model is registered.
    pub fn is_empty(&self) -> (empty: bool)
        ensures
            empty == self@.is_empty(),
    {
        self.models.is_empty()
    }
}

} // verus!
