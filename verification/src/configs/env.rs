//! Service configuration: the token secret and the admin credentials.
use dashmap::DashMap;
use std::sync::Arc;
use vstd::prelude::*;

verus! {

/// Settings read once at start-up.
#[derive(Debug)]
pub struct EnvConfig {
    pub secret: String,
    pub admin_username: String,
    pub admin_password: String,
}

/// What a configuration registry holds, key by key.
pub uninterp spec fn config_entries(registry: DashMap<usize, Arc<EnvConfig>>) -> Map<usize, EnvConfig>;

/// `DashMap::get` followed by a clone of the shared `Arc`: the entry under `key`, if any.
#[verifier::external_body]
fn registry_get(registry: &DashMap<usize, Arc<EnvConfig>>, key: usize) -> (r: Option<Arc<EnvConfig>>)
    ensures
        r is Some <==> config_entries(*registry).dom().contains(key),
        r matches Some(cfg) ==> *cfg == config_entries(*registry)[key],
{
    registry.get(&key).map(|entry| entry.value().clone())
}

impl EnvConfig {
    /// The active configuration (the entry under key 0), if the registry has one.
    pub fn try_get(registry: &DashMap<usize, Arc<EnvConfig>>) -> (r: Option<Arc<EnvConfig>>)
        ensures
            r is Some <==> config_entries(*registry).dom().contains(0),
            r matches Some(cfg) ==> *cfg == config_entries(*registry)[0],
    {
        registry_get(registry, 0)
    }

    /// The active configuration (the entry under key 0).
    pub fn get(registry: &DashMap<usize, Arc<EnvConfig>>) -> (r: Arc<EnvConfig>)
        requires
            config_entries(*registry).dom().contains(0),
        ensures
            *r == config_entries(*registry)[0],
    {
        match registry_get(registry, 0) {
            Some(cfg) => cfg,
            None => vstd::pervasive::unreached(),
        }
    }
}

} // verus!
