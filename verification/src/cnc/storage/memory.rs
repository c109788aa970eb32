//! A persistence that keeps what is saved in memory, for a controller that needs no durable
//! state of its own: a trial, or a run that starts afresh each time.

use crate::cnc::storage::{
    configs_model, loaded_configs, tree_with_domain, FileStorage, StoragePersistence,
};
use crate::cnc::types::scheduling::{Config, ConfigModel};
use crate::cnc::types::uni_types::{Domain, DomainModel};
use std::collections::HashMap;
use vstd::prelude::*;

verus! {

/// What was saved last, of the Domain tree and of the configurations, each `None` until its
/// first save.
pub struct MemoryPersistence {
    domains: Option<Vec<Domain>>,
    configs: Option<HashMap<u32, Config>>,
}

impl MemoryPersistence {
    /// The Domain tree that is saved, if one is.
    pub closed spec fn saved_domains(&self) -> Option<Seq<DomainModel>> {
        self.domains.deep_view()
    }

    /// The configurations that are saved, if any are.
    pub closed spec fn saved_configs(&self) -> Option<Map<u32, ConfigModel>> {
        loaded_configs(self.configs)
    }

    /// A persistence in which nothing is saved yet.
    pub fn new() -> (r: Self)
        ensures
            r.saved_domains() is None,
            r.saved_configs() is None,
    {
        MemoryPersistence { domains: None, configs: None }
    }

    /// A persistence in which `domains` and `configs` are saved, as an earlier run of the
    /// controller would have left them.
    pub fn holding(domains: Vec<Domain>, configs: HashMap<u32, Config>) -> (r: Self)
        ensures
            r.saved_domains() == Some(domains.deep_view()),
            r.saved_configs() == Some(configs_model(configs@)),
    {
        MemoryPersistence { domains: Some(domains), configs: Some(configs) }
    }
}

impl StoragePersistence for MemoryPersistence {
    open spec fn keeps_domains(&self, domains: Seq<DomainModel>) -> bool {
        self.saved_domains() == Some(domains)
    }

    open spec fn keeps_configs(&self, configs: Map<u32, ConfigModel>) -> bool {
        self.saved_configs() == Some(configs)
    }

    open spec fn may_load_domains(&self, loaded: Option<Seq<DomainModel>>) -> bool {
        loaded == self.saved_domains()
    }

    open spec fn may_load_configs(&self, loaded: Option<Map<u32, ConfigModel>>) -> bool {
        loaded == self.saved_configs()
    }

    fn load_domains(&self) -> (r: Option<Vec<Domain>>) {
        match &self.domains {
            Some(domains) => {
                let copy = domains.clone();
                proof {
                    assert(copy.deep_view() =~= domains.deep_view());
                }
                Some(copy)
            },
            None => None,
        }
    }

    fn load_configs(&self) -> (r: Option<HashMap<u32, Config>>) {
        match &self.configs {
            Some(configs) => Some(configs.clone()),
            None => None,
        }
    }

    fn save_domains(&mut self, domains: &Vec<Domain>) {
        let copy = domains.clone();
        proof {
            assert(copy.deep_view() =~= domains.deep_view());
        }
        self.domains = Some(copy);
    }

    fn save_configs(&mut self, configs: &HashMap<u32, Config>) {
        self.configs = Some(configs.clone());
    }
}

/// What is saved survives a restart: where a store `before` holds what is saved, and a store
/// `fresh` with the same persistence is made ready and becomes `after`, then `after` holds the
/// tree of `before`, with the domain of `fresh` where the tree lacked it, and the
/// configurations of `before`.
pub proof fn lemma_saved_state_survives_a_restart(
    before: FileStorage<MemoryPersistence>,
    fresh: FileStorage<MemoryPersistence>,
    after: FileStorage<MemoryPersistence>,
)
    requires
        before.saved(),
        fresh.durable() == before.durable(),
        fresh.may_become_ready(&after),
    ensures
        after.tree() == tree_with_domain(before.tree(), fresh.domain_id()),
        after.configs() == before.configs(),
{
}

} // verus!
