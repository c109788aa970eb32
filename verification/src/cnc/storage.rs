//! The store of the Domain tree and of the configuration last computed for each Bridge.
//!
//! The store keeps both collections in memory and hands each new state to a
//! [`StoragePersistence`], which makes it durable.

pub mod integrity;
pub mod memory;
pub mod select;
pub mod stream_id;
pub mod tree;
pub mod update;

use crate::cnc::storage::integrity::{
    is_tree_well_formed, lemma_configured_keeps_tree_well_formed,
    lemma_modify_keeps_tree_well_formed, lemma_remove_all_streams_keeps_tree_well_formed,
    lemma_remove_stream_keeps_tree_well_formed, lemma_set_stream_keeps_tree_well_formed,
    tree_well_formed,
};
use crate::cnc::storage::select::{copy_selected, selected};
use crate::cnc::storage::stream_id::{all_free_ids_in_use, free_stream_id_from, is_stream_id};
use crate::cnc::search::{first_index, lemma_first_index, lemma_first_index_is};
use crate::cnc::storage::tree::{
    domain_id_of_cuc, find_domain_id_of_cuc, find_domain_index, is_domain,
    remove_all_streams_from_tree, remove_stream_from_tree, set_stream_in_tree,
    stream_id_in_use, tree_holds_domain, tree_holds_stream, tree_with_stream,
    tree_without_stream,
    tree_without_streams,
};
use crate::cnc::storage::update::{
    mark_tree_configured, modify_tree, tree_configured, tree_modified,
};
use crate::cnc::types::scheduling::{Config, ConfigModel};
use crate::cnc::types::uni_types::compute_streams;
use crate::cnc::types::uni_types::{CucModel, Domain, DomainModel, Stream, StreamModel};
use crate::cnc::types::FailedInterfaces;
use rand::Rng;
use std::collections::HashMap;
use vstd::prelude::*;
use vstd::std_specs::iter::IteratorSpec;

verus! {

/// What makes the state of a store durable, and reads it back after a restart.
///
/// A save that cannot be carried out leaves the controller without a consistent durable state:
/// an implementation does not return from it.
pub trait StoragePersistence {
    /// Whether `domains` is the Domain tree that is saved. Of a persistence that says nothing
    /// of itself, every tree may be.
    open spec fn keeps_domains(&self, domains: Seq<DomainModel>) -> bool {
        true
    }

    /// Whether `configs` are the configurations that are saved. Of a persistence that says
    /// nothing of itself, any may be.
    open spec fn keeps_configs(&self, configs: Map<u32, ConfigModel>) -> bool {
        true
    }

    /// Whether reading the saved Domain tree may give `loaded`. Of a persistence that says
    /// nothing of itself, it may give anything.
    open spec fn may_load_domains(&self, loaded: Option<Seq<DomainModel>>) -> bool {
        true
    }

    /// Whether reading the saved configurations may give `loaded`. Of a persistence that says
    /// nothing of itself, it may give anything.
    open spec fn may_load_configs(&self, loaded: Option<Map<u32, ConfigModel>>) -> bool {
        true
    }

    /// Reads the Domain tree that was saved last. `None` where none was saved or it cannot be
    /// read.
    fn load_domains(&self) -> (r: Option<Vec<Domain>>)
        ensures
            self.may_load_domains(r.deep_view()),
            r matches Some(domains) ==> self.keeps_domains(domains.deep_view()),
    ;

    /// Reads the configurations that were saved last. `None` where none were saved or they
    /// cannot be read.
    fn load_configs(&self) -> (r: Option<HashMap<u32, Config>>)
        ensures
            self.may_load_configs(loaded_configs(r)),
            r matches Some(configs) ==> self.keeps_configs(configs_model(configs@)),
    ;

    /// Replaces the saved Domain tree by `domains`, as a whole or not at all. The saved
    /// configurations stay as they are.
    fn save_domains(&mut self, domains: &Vec<Domain>)
        ensures
            final(self).keeps_domains(domains.deep_view()),
            forall|c: Map<u32, ConfigModel>|
                #[trigger] final(self).keeps_configs(c) == old(self).keeps_configs(c),
    ;

    /// Replaces the saved configurations by `configs`, as a whole or not at all. The saved
    /// Domain tree stays as it is.
    fn save_configs(&mut self, configs: &HashMap<u32, Config>)
        ensures
            final(self).keeps_configs(configs_model(configs@)),
            forall|t: Seq<DomainModel>|
                #[trigger] final(self).keeps_domains(t) == old(self).keeps_domains(t),
    ;
}

/// The mathematical value of the configuration store: for each Bridge the configuration that
/// was set for it last.
pub open spec fn configs_model(m: Map<u32, Config>) -> Map<u32, ConfigModel> {
    m.map_values(|c: Config| c.deep_view())
}

/// What was read of the saved configurations, as a mathematical value.
pub open spec fn loaded_configs(r: Option<HashMap<u32, Config>>) -> Option<Map<u32, ConfigModel>> {
    match r {
        Some(configs) => Some(configs_model(configs@)),
        None => None,
    }
}

/// The configurations after each of `configs` was set in turn: a later one replaces an earlier
/// one for the same Bridge.
pub open spec fn configs_with(m: Map<u32, ConfigModel>, configs: Seq<ConfigModel>) -> Map<
    u32,
    ConfigModel,
>
    decreases configs.len(),
{
    if configs.len() == 0 {
        m
    } else {
        configs_with(m, configs.drop_last()).insert(configs.last().node_id, configs.last())
    }
}

/// The tree after each of `streams` was set in turn for the CUC `cuc_id` of the domain
/// `domain_id`.
pub open spec fn tree_with_streams(
    tree: Seq<DomainModel>,
    domain_id: Seq<char>,
    cuc_id: Seq<char>,
    streams: Seq<StreamModel>,
) -> Seq<DomainModel>
    decreases streams.len(),
{
    if streams.len() == 0 {
        tree
    } else {
        tree_with_stream(
            tree_with_streams(tree, domain_id, cuc_id, streams.drop_last()),
            domain_id,
            cuc_id,
            streams.last(),
        )
    }
}

/// Setting Streams one after the other keeps the tree well-formed.
pub proof fn lemma_set_streams_keeps_tree_well_formed(
    tree: Seq<DomainModel>,
    domain_id: Seq<char>,
    cuc_id: Seq<char>,
    streams: Seq<StreamModel>,
)
    requires
        tree_well_formed(tree),
    ensures
        tree_well_formed(tree_with_streams(tree, domain_id, cuc_id, streams)),
    decreases streams.len(),
{
    if streams.len() > 0 {
        lemma_set_streams_keeps_tree_well_formed(tree, domain_id, cuc_id, streams.drop_last());
        lemma_set_stream_keeps_tree_well_formed(
            tree_with_streams(tree, domain_id, cuc_id, streams.drop_last()),
            domain_id,
            cuc_id,
            streams.last(),
        );
    }
}

/// The tree with the controller's own domain in it: a tree without a domain of that id gets one
/// at its end, enabled and without CUCs.
pub open spec fn tree_with_domain(
    tree: Seq<DomainModel>,
    domain_id: Seq<char>,
) -> Seq<DomainModel> {
    if tree_holds_domain(tree, domain_id) {
        tree
    } else {
        tree.push(DomainModel { domain_id, cnc_enabled: true, cuc: Seq::empty() })
    }
}

/// Calls `rand::thread_rng` and, on the generator it gives, `rand::Rng::gen_range` with the
/// range from 0 up to, not including, `bound`. The number that comes back lies in that range;
/// nothing else is known of it.
#[verifier::external_body]
fn random_below(bound: u8) -> (r: u8)
    requires
        bound > 0,
    ensures
        r < bound,
{
    rand::thread_rng().gen_range(0..bound)
}

/// The store of the controller: the Domain tree and, for each Bridge, the configuration that
/// was computed for it last.
pub struct FileStorage<P: StoragePersistence> {
    domain: String,
    domains: Vec<Domain>,
    configs: HashMap<u32, Config>,
    persistence: P,
}

impl<P: StoragePersistence> FileStorage<P> {
    /// The Domain tree that the store holds.
    pub closed spec fn tree(&self) -> Seq<DomainModel> {
        self.domains.deep_view()
    }

    /// The configuration that the store holds for each Bridge.
    pub closed spec fn configs(&self) -> Map<u32, ConfigModel> {
        configs_model(self.configs@)
    }

    /// The id of the controller's own domain, in which Streams are set and removed.
    pub closed spec fn domain_id(&self) -> Seq<char> {
        self.domain@
    }

    /// What makes the state of the store durable.
    pub closed spec fn durable(&self) -> P {
        self.persistence
    }

    /// Whether what the store holds is what is saved: both the Domain tree and the
    /// configurations.
    pub open spec fn saved(&self) -> bool {
        &&& self.durable().keeps_domains(self.tree())
        &&& self.durable().keeps_configs(self.configs())
    }

    /// An empty store for the controller of the domain `domain`.
    pub fn new(domain: String, persistence: P) -> (r: Self)
        ensures
            r.tree() == Seq::<DomainModel>::empty(),
            r.configs() == Map::<u32, ConfigModel>::empty(),
            r.domain_id() == domain@,
            r.durable() == persistence,
    {
        let r = FileStorage { domain, domains: Vec::new(), configs: HashMap::new(), persistence };
        proof {
            assert(r.domains.deep_view() =~= Seq::<DomainModel>::empty());
            assert(configs_model(r.configs@) =~= Map::<u32, ConfigModel>::empty());
        }
        r
    }

    /// The id of the controller's own domain.
    pub fn domain(&self) -> (r: &String)
        ensures
            r@ == self.domain_id(),
    {
        &self.domain
    }

    /// Says whether the tree that the store holds is well-formed. A tree that was well-formed
    /// when it was read back stays so, whatever is done to the store.
    pub fn is_well_formed(&self) -> (r: bool)
        ensures
            r == tree_well_formed(self.tree()),
    {
        is_tree_well_formed(&self.domains)
    }

    /// What makes the state of the store durable.
    pub fn persistence(&self) -> (r: &P)
        ensures
            *r == self.durable(),
    {
        &self.persistence
    }

    /// Whether `after` is what the store becomes when it is made ready: for something that may
    /// be read of the saved tree and of the saved configurations, the store holds what was
    /// read, each where something was read, and its own domain.
    pub open spec fn may_become_ready(&self, after: &Self) -> bool {
        exists|domains: Option<Seq<DomainModel>>, configs: Option<Map<u32, ConfigModel>>|
            #![trigger
                self.durable().may_load_domains(domains),
                self.durable().may_load_configs(configs)
            ]
            {
                &&& self.durable().may_load_domains(domains)
                &&& self.durable().may_load_configs(configs)
                &&& after.tree() == tree_with_domain(
                    match domains {
                        Some(d) => d,
                        None => self.tree(),
                    },
                    self.domain_id(),
                )
                &&& after.configs() == (match configs {
                    Some(c) => c,
                    None => self.configs(),
                })
            }
    }

    /// Takes over what was read back from the durable state: `domains` and `configs` replace
    /// what the store holds, each where it was read. Then the controller's own domain is
    /// created if the tree lacks it.
    pub fn restore(&mut self, domains: Option<Vec<Domain>>, configs: Option<HashMap<u32, Config>>)
        ensures
            final(self).tree() == tree_with_domain(
                match domains {
                    Some(d) => d.deep_view(),
                    None => old(self).tree(),
                },
                old(self).domain_id(),
            ),
            final(self).configs() == (match configs {
                Some(c) => configs_model(c@),
                None => old(self).configs(),
            }),
            final(self).domain_id() == old(self).domain_id(),
            (domains matches Some(d) ==> old(self).durable().keeps_domains(d.deep_view())) && (
            configs matches Some(c) ==> old(self).durable().keeps_configs(configs_model(c@)))
                ==> final(self).saved(),
    {
        let read_domains = domains.is_some();
        if let Some(d) = domains {
            self.domains = d;
        }
        let i = find_domain_index(&self.domains, &self.domain);
        if i >= self.domains.len() {
            let ghost before = self.domains.deep_view();
            let seed = Domain {
                domain_id: self.domain.clone(),
                cnc_enabled: true,
                cuc: Vec::new(),
            };
            proof {
                assert(seed.cuc.deep_view() =~= Seq::<CucModel>::empty());
            }
            self.domains.push(seed);
            proof {
                assert(self.domains.deep_view() =~= before.push(
                    DomainModel { domain_id: self.domain@, cnc_enabled: true, cuc: Seq::empty() },
                ));
            }
            self.persistence.save_domains(&self.domains);
        } else if !read_domains {
            self.persistence.save_domains(&self.domains);
        }
        match configs {
            Some(c) => {
                self.configs = c;
            },
            None => {
                self.persistence.save_configs(&self.configs);
            },
        }
    }

    /// Makes the store ready: reads back what was saved, and creates the controller's own
    /// domain where the tree lacks it. What the store holds afterwards depends on what was
    /// saved; [`FileStorage::restore`] says how.
    pub fn configure_storage(&mut self)
        ensures
            final(self).domain_id() == old(self).domain_id(),
            tree_holds_domain(final(self).tree(), final(self).domain_id()),
            final(self).saved(),
            old(self).may_become_ready(final(self)),
    {
        let domains = self.persistence.load_domains();
        let configs = self.persistence.load_configs();
        let ghost read_domains = domains.deep_view();
        let ghost read_configs = loaded_configs(configs);
        let ghost read = if domains is Some {
            domains.deep_view()->0
        } else {
            self.tree()
        };
        self.restore(domains, configs);
        proof {
            lemma_first_index(read, is_domain(self.domain_id()));
            let seed = DomainModel {
                domain_id: self.domain_id(),
                cnc_enabled: true,
                cuc: Seq::empty(),
            };
            if first_index(read, is_domain(self.domain_id())) >= read.len() {
                lemma_first_index_is(
                    read.push(seed),
                    is_domain(self.domain_id()),
                    read.len() as int,
                );
            }
            assert(old(self).durable().may_load_domains(read_domains));
            assert(old(self).durable().may_load_configs(read_configs));
            assert(read == match read_domains {
                Some(d) => d,
                None => old(self).tree(),
            });
            assert(self.configs() == (match read_configs {
                Some(c) => c,
                None => old(self).configs(),
            }));
        }
    }

    /// Copies out of the tree what `domains` asks for.
    pub fn get_streams_in_domains(&self, domains: Vec<compute_streams::Domain>) -> (r: Vec<Domain>)
        ensures
            r.deep_view() == selected(self.tree(), domains.deep_view(), false),
    {
        copy_selected(&self.domains, &domains, false)
    }

    /// Copies out of the tree what the one request domain `domain` asks for.
    pub fn get_streams_in_domain(&self, domain: compute_streams::Domain) -> (r: Vec<Domain>)
        ensures
            r.deep_view() == selected(self.tree(), seq![domain.deep_view()], false),
    {
        let mut request: Vec<compute_streams::Domain> = Vec::new();
        request.push(domain);
        proof {
            assert(request.deep_view() =~= seq![domain.deep_view()]);
        }
        copy_selected(&self.domains, &request, false)
    }

    /// Copies out of the tree what `domains` asks for, without the Streams that are configured.
    pub fn get_planned_and_modified_streams_in_domains(
        &self,
        domains: Vec<compute_streams::Domain>,
    ) -> (r: Vec<Domain>)
        ensures
            r.deep_view() == selected(self.tree(), domains.deep_view(), true),
    {
        copy_selected(&self.domains, &domains, true)
    }

    /// Takes every Stream out of the CUC `cuc_id` of the controller's own domain.
    pub fn remove_all_streams(&mut self, cuc_id: &String)
        ensures
            final(self).tree() == tree_without_streams(
                old(self).tree(),
                old(self).domain_id(),
                cuc_id@,
            ),
            final(self).configs() == old(self).configs(),
            final(self).domain_id() == old(self).domain_id(),
            tree_well_formed(old(self).tree()) ==> tree_well_formed(final(self).tree()),
            old(self).saved() ==> final(self).saved(),
    {
        let found = remove_all_streams_from_tree(&mut self.domains, &self.domain, cuc_id);
        if found {
            self.persistence.save_domains(&self.domains);
        }
        proof {
            if !found {
                let tree = old(self).tree();
                lemma_first_index(tree, is_domain(old(self).domain_id()));
                assert(tree_without_streams(tree, old(self).domain_id(), cuc_id@) =~= tree);
            }
            if tree_well_formed(old(self).tree()) {
                lemma_remove_all_streams_keeps_tree_well_formed(
                    old(self).tree(),
                    old(self).domain_id(),
                    cuc_id@,
                );
            }
        }
    }

    /// Takes the Stream `stream_id` out of the CUC `cuc_id` of the controller's own domain.
    /// Where there is no such Stream, the tree stays as it is.
    pub fn remove_stream(&mut self, cuc_id: &String, stream_id: String)
        ensures
            final(self).tree() == tree_without_stream(
                old(self).tree(),
                old(self).domain_id(),
                cuc_id@,
                stream_id@,
            ),
            !tree_holds_stream(old(self).tree(), old(self).domain_id(), cuc_id@, stream_id@)
                ==> final(self).tree() == old(self).tree(),
            final(self).configs() == old(self).configs(),
            final(self).domain_id() == old(self).domain_id(),
            tree_well_formed(old(self).tree()) ==> tree_well_formed(final(self).tree()),
            old(self).saved() ==> final(self).saved(),
    {
        let removed = remove_stream_from_tree(&mut self.domains, &self.domain, cuc_id, &stream_id);
        if removed {
            self.persistence.save_domains(&self.domains);
        }
        proof {
            if tree_well_formed(old(self).tree()) {
                lemma_remove_stream_keeps_tree_well_formed(
                    old(self).tree(),
                    old(self).domain_id(),
                    cuc_id@,
                    stream_id@,
                );
            }
        }
    }

    /// Sets `stream` for the CUC `cuc_id` of the controller's own domain: a Stream with the same
    /// id is replaced and marked modified, else `stream` is added as it is, to a new CUC where
    /// the domain has none of that id.
    pub fn set_stream(&mut self, cuc_id: &String, stream: &Stream)
        ensures
            final(self).tree() == tree_with_stream(
                old(self).tree(),
                old(self).domain_id(),
                cuc_id@,
                stream.deep_view(),
            ),
            final(self).configs() == old(self).configs(),
            final(self).domain_id() == old(self).domain_id(),
            tree_well_formed(old(self).tree()) ==> tree_well_formed(final(self).tree()),
            old(self).saved() ==> final(self).saved(),
    {
        set_stream_in_tree(&mut self.domains, &self.domain, cuc_id, stream);
        self.persistence.save_domains(&self.domains);
        proof {
            if tree_well_formed(old(self).tree()) {
                lemma_set_stream_keeps_tree_well_formed(
                    old(self).tree(),
                    old(self).domain_id(),
                    cuc_id@,
                    stream.deep_view(),
                );
            }
        }
    }

    /// Sets each of `streams` in turn, as [`FileStorage::set_stream`] does.
    pub fn set_streams(&mut self, cuc_id: &String, streams: &Vec<Stream>)
        ensures
            final(self).tree() == tree_with_streams(
                old(self).tree(),
                old(self).domain_id(),
                cuc_id@,
                streams.deep_view(),
            ),
            final(self).configs() == old(self).configs(),
            final(self).domain_id() == old(self).domain_id(),
            tree_well_formed(old(self).tree()) ==> tree_well_formed(final(self).tree()),
            old(self).saved() ==> final(self).saved(),
    {
        let ghost all = streams.deep_view();
        let mut i: usize = 0;
        while i < streams.len()
            invariant
                i <= streams.len(),
                all == streams.deep_view(),
                self.domain_id() == old(self).domain_id(),
                self.configs() == old(self).configs(),
                old(self).saved() ==> self.saved(),
                self.tree() == tree_with_streams(
                    old(self).tree(),
                    old(self).domain_id(),
                    cuc_id@,
                    all.take(i as int),
                ),
            decreases streams.len() - i,
        {
            self.set_stream(cuc_id, &streams[i]);
            proof {
                assert(all.take(i + 1).drop_last() =~= all.take(i as int));
                assert(all.take(i + 1).last() == all[i as int]);
            }
            i += 1;
        }
        proof {
            assert(all.take(i as int) =~= all);
            if tree_well_formed(old(self).tree()) {
                lemma_set_streams_keeps_tree_well_formed(
                    old(self).tree(),
                    old(self).domain_id(),
                    cuc_id@,
                    all,
                );
            }
        }
    }

    /// Writes back what a scheduler decided: every Stream of the tree for whose place `domains`
    /// provides a Stream is replaced by it as a whole.
    pub fn modify_streams(&mut self, domains: &Vec<Domain>)
        ensures
            final(self).tree() == tree_modified(old(self).tree(), domains.deep_view()),
            final(self).configs() == old(self).configs(),
            final(self).domain_id() == old(self).domain_id(),
            tree_well_formed(old(self).tree()) ==> tree_well_formed(final(self).tree()),
            old(self).saved() ==> final(self).saved(),
    {
        modify_tree(&mut self.domains, domains);
        self.persistence.save_domains(&self.domains);
        proof {
            if tree_well_formed(old(self).tree()) {
                lemma_modify_keeps_tree_well_formed(old(self).tree(), domains.deep_view());
            }
        }
    }

    /// Records how the configuration of `domains` ended: every Stream of the tree whose place
    /// `domains` names becomes configured, or modified where it is among the affected Streams
    /// of a failed port.
    pub fn set_streams_configured(
        &mut self,
        domains: &Vec<Domain>,
        failed_interfaces: &FailedInterfaces,
    )
        ensures
            final(self).tree() == tree_configured(
                old(self).tree(),
                domains.deep_view(),
                failed_interfaces.deep_view(),
            ),
            final(self).configs() == old(self).configs(),
            final(self).domain_id() == old(self).domain_id(),
            tree_well_formed(old(self).tree()) ==> tree_well_formed(final(self).tree()),
            old(self).saved() ==> final(self).saved(),
    {
        mark_tree_configured(&mut self.domains, domains, failed_interfaces);
        self.persistence.save_domains(&self.domains);
        proof {
            if tree_well_formed(old(self).tree()) {
                lemma_configured_keeps_tree_well_formed(
                    old(self).tree(),
                    domains.deep_view(),
                    failed_interfaces.deep_view(),
                );
            }
        }
    }

    /// The id of the first domain of the tree that has a CUC `cuc_id`.
    pub fn get_domain_id_of_cuc(&self, cuc_id: String) -> (r: Option<String>)
        ensures
            r.deep_view() == domain_id_of_cuc(self.tree(), cuc_id@),
    {
        find_domain_id_of_cuc(&self.domains, &cuc_id)
    }

    /// Searches, from a unique id drawn at random, for a Stream id with the MAC address zero
    /// that no Stream of the tree has, in whatever domain and CUC. `None` comes back exactly
    /// where all of them are taken. Which of the free ids comes back depends on the draw;
    /// [`free_stream_id_from`] says how.
    pub fn get_free_stream_id(&self, _domain_id: String, _cuc_id: String) -> (r: Option<String>)
        ensures
            r matches Some(id) ==> !stream_id_in_use(self.tree(), id@) && is_stream_id(id@),
            r is None <==> all_free_ids_in_use(self.tree()),
    {
        let a = random_below(255);
        let b = random_below(255);
        free_stream_id_from(&self.domains, a, b)
    }

    /// The configurations of all Bridges, in no particular order.
    pub fn get_all_configs(&self) -> (r: Vec<Config>)
        ensures
            r.len() == self.configs().dom().len(),
            forall|i: int|
                0 <= i < r.len() ==> self.configs().values().contains(#[trigger] r.deep_view()[i]),
            forall|node_id: u32|
                self.configs().contains_key(node_id) ==> r.deep_view().contains(
                    #[trigger] self.configs()[node_id],
                ),
    {
        broadcast use vstd::std_specs::hash::group_hash_axioms;

        let mut out: Vec<Config> = Vec::new();
        for c in it: self.configs.values()
            invariant
                out.len() == it.index(),
                forall|j: int|
                    0 <= j < out.len() ==> #[trigger] out.deep_view()[j] == it.seq()[j].deep_view(),
        {
            let ghost before = out.deep_view();
            out.push(c.clone());
            proof {
                assert(out.deep_view() =~= before.push(c.deep_view()));
            }
        }
        proof {
            let m = self.configs@;
            let vals = self.configs.values().remaining();
            assert(vals.unref().to_set() == m.values());
            assert forall|i: int| 0 <= i < out.len() implies configs_model(m).values().contains(
                #[trigger] out.deep_view()[i],
            ) by {
                let c: Config = *vals[i];
                assert(vals.unref()[i] == c);
                assert(vals.unref().to_set().contains(c));
                let k = choose|k: u32| m.contains_key(k) && m[k] == c;
                assert(configs_model(m).contains_key(k) && configs_model(m)[k] == c.deep_view());
            }
            assert forall|k: u32| configs_model(m).contains_key(k) implies out.deep_view().contains(
                #[trigger] configs_model(m)[k],
            ) by {
                let c = m[k];
                assert(m.values().contains(c));
                assert(vals.unref().to_set().contains(c));
                assert(vals.unref().contains(c));
                let i = choose|i: int| 0 <= i < vals.unref().len() && vals.unref()[i] == c;
                assert(out.deep_view()[i] == c.deep_view());
            }
            assert(configs_model(m).dom() =~= m.dom());
        }
        out
    }

    /// The configuration of the Bridge `node_id`, if the store holds one.
    pub fn get_config(&self, node_id: u32) -> (r: Option<Config>)
        ensures
            r.deep_view() == (if self.configs().contains_key(node_id) {
                Some(self.configs()[node_id])
            } else {
                None
            }),
    {
        broadcast use vstd::std_specs::hash::group_hash_axioms;

        match self.configs.get(&node_id) {
            Some(c) => Some(c.clone()),
            None => None,
        }
    }

    /// Sets `config` as the configuration of its Bridge.
    pub fn set_config(&mut self, config: Config)
        ensures
            final(self).configs() == old(self).configs().insert(config.node_id, config.deep_view()),
            final(self).tree() == old(self).tree(),
            final(self).domain_id() == old(self).domain_id(),
            old(self).saved() ==> final(self).saved(),
    {
        broadcast use vstd::std_specs::hash::group_hash_axioms;

        let ghost k = config.node_id;
        let ghost v = config.deep_view();
        let _ = self.configs.insert(config.node_id, config);
        proof {
            assert(configs_model(self.configs@) =~= configs_model(old(self).configs@).insert(k, v));
        }
        self.persistence.save_configs(&self.configs);
    }

    /// Sets each of `configs` in turn as the configuration of its Bridge.
    pub fn set_configs(&mut self, configs: &Vec<Config>)
        ensures
            final(self).configs() == configs_with(old(self).configs(), configs.deep_view()),
            final(self).tree() == old(self).tree(),
            final(self).domain_id() == old(self).domain_id(),
            old(self).saved() ==> final(self).saved(),
    {
        broadcast use vstd::std_specs::hash::group_hash_axioms;

        let ghost all = configs.deep_view();
        let mut i: usize = 0;
        while i < configs.len()
            invariant
                i <= configs.len(),
                all == configs.deep_view(),
                self.domain_id() == old(self).domain_id(),
                self.tree() == old(self).tree(),
                self.durable() == old(self).durable(),
                self.configs() == configs_with(old(self).configs(), all.take(i as int)),
            decreases configs.len() - i,
        {
            let ghost before = self.configs@;
            let config = configs[i].clone();
            let ghost k = config.node_id;
            let ghost v = config.deep_view();
            let _ = self.configs.insert(config.node_id, config);
            proof {
                assert(configs_model(self.configs@) =~= configs_model(before).insert(k, v));
                assert(all.take(i + 1).drop_last() =~= all.take(i as int));
                assert(all.take(i + 1).last() == all[i as int]);
            }
            i += 1;
        }
        proof {
            assert(all.take(i as int) =~= all);
        }
        self.persistence.save_configs(&self.configs);
    }
}

/// What a store of the controller does: it keeps the Domain tree and, for each Bridge, the
/// configuration that was computed for it last, and it makes every change durable before it
/// returns.
///
/// The controller works with any store that keeps to these contracts. [`FileStorage`] is the
/// store that comes with the library.
pub trait StorageAdapterInterface {
    /// The Domain tree that the store holds.
    spec fn tree(&self) -> Seq<DomainModel>;

    /// The configuration that the store holds for each Bridge.
    spec fn configs(&self) -> Map<u32, ConfigModel>;

    /// The id of the controller's own domain, in which Streams are set and removed.
    spec fn domain_id(&self) -> Seq<char>;

    /// Whether what the store holds is what is saved.
    spec fn saved(&self) -> bool;

    /// Whether `after` is what the store may become when it is made ready: what it may take over
    /// from the state that an earlier run left.
    spec fn may_become_ready(&self, after: &Self) -> bool;

    /// The id of the controller's own domain.
    fn domain(&self) -> (r: &String)
        ensures
            r@ == self.domain_id(),
    ;

    /// Makes the store ready: reads back what was saved, and creates the controller's own
    /// domain where the tree lacks it. What the store holds afterwards is saved.
    fn configure_storage(&mut self)
        ensures
            final(self).domain_id() == old(self).domain_id(),
            tree_holds_domain(final(self).tree(), final(self).domain_id()),
            final(self).saved(),
            old(self).may_become_ready(final(self)),
    ;

    /// Copies out of the tree what `domains` asks for.
    fn get_streams_in_domains(&self, domains: Vec<compute_streams::Domain>) -> (r: Vec<Domain>)
        ensures
            r.deep_view() == selected(self.tree(), domains.deep_view(), false),
    ;

    /// Copies out of the tree what the one request domain `domain` asks for.
    fn get_streams_in_domain(&self, domain: compute_streams::Domain) -> (r: Vec<Domain>)
        ensures
            r.deep_view() == selected(self.tree(), seq![domain.deep_view()], false),
    ;

    /// Copies out of the tree what `domains` asks for, without the Streams that are configured.
    fn get_planned_and_modified_streams_in_domains(
        &self,
        domains: Vec<compute_streams::Domain>,
    ) -> (r: Vec<Domain>)
        ensures
            r.deep_view() == selected(self.tree(), domains.deep_view(), true),
    ;

    /// Takes every Stream out of the CUC `cuc_id` of the controller's own domain.
    fn remove_all_streams(&mut self, cuc_id: &String)
        ensures
            final(self).tree() == tree_without_streams(
                old(self).tree(),
                old(self).domain_id(),
                cuc_id@,
            ),
            final(self).configs() == old(self).configs(),
            final(self).domain_id() == old(self).domain_id(),
            tree_well_formed(old(self).tree()) ==> tree_well_formed(final(self).tree()),
            old(self).saved() ==> final(self).saved(),
    ;

    /// Takes the Stream `stream_id` out of the CUC `cuc_id` of the controller's own domain.
    /// Where there is no such Stream, the tree stays as it is.
    fn remove_stream(&mut self, cuc_id: &String, stream_id: String)
        ensures
            final(self).tree() == tree_without_stream(
                old(self).tree(),
                old(self).domain_id(),
                cuc_id@,
                stream_id@,
            ),
            !tree_holds_stream(old(self).tree(), old(self).domain_id(), cuc_id@, stream_id@)
                ==> final(self).tree() == old(self).tree(),
            final(self).configs() == old(self).configs(),
            final(self).domain_id() == old(self).domain_id(),
            tree_well_formed(old(self).tree()) ==> tree_well_formed(final(self).tree()),
            old(self).saved() ==> final(self).saved(),
    ;

    /// Sets `stream` for the CUC `cuc_id` of the controller's own domain: a Stream with the same
    /// id is replaced and marked modified, else `stream` is added as it is, to a new CUC where
    /// the domain has none of that id.
    fn set_stream(&mut self, cuc_id: &String, stream: &Stream)
        ensures
            final(self).tree() == tree_with_stream(
                old(self).tree(),
                old(self).domain_id(),
                cuc_id@,
                stream.deep_view(),
            ),
            final(self).configs() == old(self).configs(),
            final(self).domain_id() == old(self).domain_id(),
            tree_well_formed(old(self).tree()) ==> tree_well_formed(final(self).tree()),
            old(self).saved() ==> final(self).saved(),
    ;

    /// Sets each of `streams` in turn, as [`StorageAdapterInterface::set_stream`] does.
    fn set_streams(&mut self, cuc_id: &String, streams: &Vec<Stream>)
        ensures
            final(self).tree() == tree_with_streams(
                old(self).tree(),
                old(self).domain_id(),
                cuc_id@,
                streams.deep_view(),
            ),
            final(self).configs() == old(self).configs(),
            final(self).domain_id() == old(self).domain_id(),
            tree_well_formed(old(self).tree()) ==> tree_well_formed(final(self).tree()),
            old(self).saved() ==> final(self).saved(),
    ;

    /// Writes back what a scheduler decided: every Stream of the tree for whose place `domains`
    /// provides a Stream is replaced by it as a whole.
    fn modify_streams(&mut self, domains: &Vec<Domain>)
        ensures
            final(self).tree() == tree_modified(old(self).tree(), domains.deep_view()),
            final(self).configs() == old(self).configs(),
            final(self).domain_id() == old(self).domain_id(),
            tree_well_formed(old(self).tree()) ==> tree_well_formed(final(self).tree()),
            old(self).saved() ==> final(self).saved(),
    ;

    /// Records how the configuration of `domains` ended: every Stream of the tree whose place
    /// `domains` names becomes configured, or modified where it is among the affected Streams
    /// of a failed port.
    fn set_streams_configured(
        &mut self,
        domains: &Vec<Domain>,
        failed_interfaces: &FailedInterfaces,
    )
        ensures
            final(self).tree() == tree_configured(
                old(self).tree(),
                domains.deep_view(),
                failed_interfaces.deep_view(),
            ),
            final(self).configs() == old(self).configs(),
            final(self).domain_id() == old(self).domain_id(),
            tree_well_formed(old(self).tree()) ==> tree_well_formed(final(self).tree()),
            old(self).saved() ==> final(self).saved(),
    ;

    /// The id of the first domain of the tree that has a CUC `cuc_id`.
    fn get_domain_id_of_cuc(&self, cuc_id: String) -> (r: Option<String>)
        ensures
            r.deep_view() == domain_id_of_cuc(self.tree(), cuc_id@),
    ;

    /// Offers a Stream id that no Stream of the tree has, in whatever domain and CUC, or
    /// nothing. How a store finds one, and when it finds none, is its own affair.
    fn get_free_stream_id(&self, domain_id: String, cuc_id: String) -> (r: Option<String>)
        ensures
            r matches Some(id) ==> !stream_id_in_use(self.tree(), id@) && is_stream_id(id@),
    ;

    /// The configurations of all Bridges, in no particular order.
    fn get_all_configs(&self) -> (r: Vec<Config>)
        ensures
            r.len() == self.configs().dom().len(),
            forall|i: int|
                0 <= i < r.len() ==> self.configs().values().contains(#[trigger] r.deep_view()[i]),
            forall|node_id: u32|
                self.configs().contains_key(node_id) ==> r.deep_view().contains(
                    #[trigger] self.configs()[node_id],
                ),
    ;

    /// The configuration of the Bridge `node_id`, if the store holds one.
    fn get_config(&self, node_id: u32) -> (r: Option<Config>)
        ensures
            r.deep_view() == (if self.configs().contains_key(node_id) {
                Some(self.configs()[node_id])
            } else {
                None
            }),
    ;

    /// Sets `config` as the configuration of its Bridge.
    fn set_config(&mut self, config: Config)
        ensures
            final(self).configs() == old(self).configs().insert(config.node_id, config.deep_view()),
            final(self).tree() == old(self).tree(),
            final(self).domain_id() == old(self).domain_id(),
            old(self).saved() ==> final(self).saved(),
    ;

    /// Sets each of `configs` in turn as the configuration of its Bridge.
    fn set_configs(&mut self, configs: &Vec<Config>)
        ensures
            final(self).configs() == configs_with(old(self).configs(), configs.deep_view()),
            final(self).tree() == old(self).tree(),
            final(self).domain_id() == old(self).domain_id(),
            old(self).saved() ==> final(self).saved(),
    ;
}

impl<P: StoragePersistence> StorageAdapterInterface for FileStorage<P> {
    open spec fn tree(&self) -> Seq<DomainModel> {
        FileStorage::<P>::tree(self)
    }

    open spec fn configs(&self) -> Map<u32, ConfigModel> {
        FileStorage::<P>::configs(self)
    }

    open spec fn domain_id(&self) -> Seq<char> {
        FileStorage::<P>::domain_id(self)
    }

    open spec fn saved(&self) -> bool {
        FileStorage::<P>::saved(self)
    }

    open spec fn may_become_ready(&self, after: &Self) -> bool {
        FileStorage::<P>::may_become_ready(self, after)
    }

    fn domain(&self) -> (r: &String) {
        FileStorage::<P>::domain(self)
    }

    fn configure_storage(&mut self) {
        FileStorage::<P>::configure_storage(self)
    }

    fn get_streams_in_domains(&self, domains: Vec<compute_streams::Domain>) -> (r: Vec<Domain>) {
        FileStorage::<P>::get_streams_in_domains(self, domains)
    }

    fn get_streams_in_domain(&self, domain: compute_streams::Domain) -> (r: Vec<Domain>) {
        FileStorage::<P>::get_streams_in_domain(self, domain)
    }

    fn get_planned_and_modified_streams_in_domains(
        &self,
        domains: Vec<compute_streams::Domain>,
    ) -> (r: Vec<Domain>) {
        FileStorage::<P>::get_planned_and_modified_streams_in_domains(self, domains)
    }

    fn remove_all_streams(&mut self, cuc_id: &String) {
        FileStorage::<P>::remove_all_streams(self, cuc_id)
    }

    fn remove_stream(&mut self, cuc_id: &String, stream_id: String) {
        FileStorage::<P>::remove_stream(self, cuc_id, stream_id)
    }

    fn set_stream(&mut self, cuc_id: &String, stream: &Stream) {
        FileStorage::<P>::set_stream(self, cuc_id, stream)
    }

    fn set_streams(&mut self, cuc_id: &String, streams: &Vec<Stream>) {
        FileStorage::<P>::set_streams(self, cuc_id, streams)
    }

    fn modify_streams(&mut self, domains: &Vec<Domain>) {
        FileStorage::<P>::modify_streams(self, domains)
    }

    fn set_streams_configured(
        &mut self,
        domains: &Vec<Domain>,
        failed_interfaces: &FailedInterfaces,
    ) {
        FileStorage::<P>::set_streams_configured(self, domains, failed_interfaces)
    }

    fn get_domain_id_of_cuc(&self, cuc_id: String) -> (r: Option<String>) {
        FileStorage::<P>::get_domain_id_of_cuc(self, cuc_id)
    }

    fn get_free_stream_id(&self, domain_id: String, cuc_id: String) -> (r: Option<String>) {
        FileStorage::<P>::get_free_stream_id(self, domain_id, cuc_id)
    }

    fn get_all_configs(&self) -> (r: Vec<Config>) {
        FileStorage::<P>::get_all_configs(self)
    }

    fn get_config(&self, node_id: u32) -> (r: Option<Config>) {
        FileStorage::<P>::get_config(self, node_id)
    }

    fn set_config(&mut self, config: Config) {
        FileStorage::<P>::set_config(self, config)
    }

    fn set_configs(&mut self, configs: &Vec<Config>) {
        FileStorage::<P>::set_configs(self, configs)
    }
}

} // verus!
