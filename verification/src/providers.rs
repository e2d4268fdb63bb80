//! The mapping from Synapse's auth providers to upstream providers.

use vstd::hash_map::StringHashMap;
use vstd::prelude::*;

verus! {

/// For each auth provider that Synapse knows by name, the ID of the upstream
/// provider that stands for it in the destination.
pub struct ProviderMapping {
    providers: StringHashMap<u128>,
}

impl View for ProviderMapping {
    type V = Map<Seq<char>, u128>;

    closed spec fn view(&self) -> Map<Seq<char>, u128> {
        self.providers@
    }
}

impl ProviderMapping {
    /// A mapping that knows no provider.
    pub fn new() -> (mapping: Self)
        ensures
            mapping@ == Map::<Seq<char>, u128>::empty(),
    {
        ProviderMapping { providers: StringHashMap::new() }
    }

    /// Maps the auth provider `synapse_id` to the upstream provider
    /// `provider_id`, in place of what it was mapped to before.
    pub fn insert(&mut self, synapse_id: String, provider_id: u128)
        ensures
            final(self)@ == old(self)@.insert(synapse_id@, provider_id),
    {
        self.providers.insert(synapse_id, provider_id);
    }

    /// The upstream provider that `synapse_id` is mapped to, if any.
    pub fn get(&self, synapse_id: &str) -> (provider_id: Option<u128>)
        ensures
            provider_id == if self@.contains_key(synapse_id@) {
                Some(self@[synapse_id@])
            } else {
                None
            },
    {
        match self.providers.get(synapse_id) {
            Some(provider_id) => Some(*provider_id),
            None => None,
        }
    }
}

} // verus!
