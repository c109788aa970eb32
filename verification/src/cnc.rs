//! The Centralized Network Configuration controller of a TSN network.
//!
//! The controller owns its five collaborators: the northbound that talks to the CUCs, the
//! southbound that talks to the Bridges, the store, the topology source and the scheduler. It
//! takes compute requests into a queue and carries them out one at a time.

pub mod northbound;
pub mod notification;
pub mod scheduling;
pub mod search;
pub mod southbound;
pub mod storage;
pub mod topology;
pub mod types;

use crate::cnc::northbound::{
    NorthboundAdapterInterface, NorthboundControllerInterface, SentNotification,
    SentNotificationModel,
};
use crate::cnc::notification::{
    computation_notification, configuration_notification, create_computation_notification,
    create_configuration_notification,
};
use crate::cnc::scheduling::SchedulerAdapterInterface;
use crate::cnc::southbound::SouthboundAdapterInterface;
use crate::cnc::storage::integrity::{
    lemma_configured_keeps_tree_well_formed, lemma_existing_stream_becomes_modified,
    lemma_holds_stream_is_stream_at, lemma_modify_keeps_tree_well_formed,
    lemma_set_streams_status, tree_well_formed,
};
use crate::cnc::storage::select::selected;
use crate::cnc::storage::stream_id::is_stream_id;
use crate::cnc::storage::tree::{
    domain_id_of_cuc, lemma_remove_missing_stream, stream_at, stream_id_in_use,
    tree_holds_domain, tree_holds_stream, tree_without_stream,
};
use crate::cnc::storage::update::{tree_configured, tree_modified};
use crate::cnc::storage::{configs_with, tree_with_streams, StorageAdapterInterface};
use crate::cnc::topology::{TopologyAdapterInterface, TopologyControllerInterface};
use crate::cnc::types::computation::{ComputationType, ComputationTypeModel};
use crate::cnc::types::notification_types::NotificationContent;
use crate::cnc::types::scheduling::{ConfigModel, Schedule};
use crate::cnc::types::topology::{Topology, TopologyModel};
use crate::cnc::types::tsn_types::{
    GroupInterfaceConfiguration, GroupInterfaceConfigurationModel, GroupListenerModel,
    GroupStatusStream, GroupStatusStreamModel, GroupStatusTalkerListener,
    GroupStatusTalkerListenerModel, ListenerStatus, StatusInfoContainer, TalkerStatus,
};
use crate::cnc::types::uni_types::compute_streams;
use crate::cnc::types::uni_types::{
    request_free_stream_id, CucModel, Domain, DomainModel, Listener, ListenerModel, Stream,
    StreamModel, StreamStatus, Talker, TalkerModel,
};
use crate::cnc::types::{
    ComputationResult, ComputationResultModel, ConfigurationResult, ConfigurationResultModel,
    FailedInterfaces, FailedInterfacesModel, StreamRequest, StreamRequestModel,
};
use vstd::prelude::*;
use vstd::string::*;

verus! {

/// What is known of a Talker or Listener before a scheduler has seen it: no latency and no
/// interface configuration.
pub open spec fn undecided() -> GroupStatusTalkerListenerModel {
    GroupStatusTalkerListenerModel {
        accumulated_latency: 0,
        interface_configuration: GroupInterfaceConfigurationModel { interface_list: Seq::empty() },
    }
}

/// The index of the Listener at the position `position` of a request: the position, which is 0
/// for the first Listener, as far as the index can count.
pub open spec fn listener_index(position: int) -> u32 {
    if position <= u32::MAX {
        position as u32
    } else {
        u32::MAX
    }
}

/// The Listeners that a request for `listeners` creates: one for each, in their order, each
/// with the index of its position and with nothing decided for it.
pub open spec fn listeners_of_request(listeners: Seq<GroupListenerModel>) -> Seq<ListenerModel> {
    Seq::new(
        listeners.len(),
        |i: int|
            ListenerModel {
                index: listener_index(i),
                group_listener: listeners[i],
                group_status_talker_listener: undecided(),
            },
    )
}

/// The Stream that a request creates: planned, with the Talker and the Listeners of the
/// request, and with nothing decided for any of them.
pub open spec fn stream_of_request() -> spec_fn(StreamRequestModel) -> StreamModel {
    |r: StreamRequestModel|
        StreamModel {
            stream_id: r.stream_id,
            stream_status: StreamStatus::Planned,
            talker: TalkerModel {
                group_talker: r.talker,
                group_status_talker_listener: undecided(),
            },
            listener: listeners_of_request(r.listeners),
            group_status_stream: GroupStatusStreamModel {
                status_info: StatusInfoContainer {
                    talker_status: TalkerStatus::NoTalker,
                    listener_status: ListenerStatus::NoListener,
                    failure_code: 0,
                },
                failed_interfaces: Seq::empty(),
            },
        }
}

/// Builds the status block of a Talker or Listener for which nothing is decided yet.
fn new_status_block() -> (r: GroupStatusTalkerListener)
    ensures
        r.deep_view() == undecided(),
{
    let r = GroupStatusTalkerListener {
        accumulated_latency: 0,
        interface_configuration: GroupInterfaceConfiguration { interface_list: Vec::new() },
    };
    proof {
        assert(r.interface_configuration.interface_list.deep_view() =~= Seq::empty());
    }
    r
}

/// Builds the Stream that `request` creates.
pub fn new_stream(request: &StreamRequest) -> (r: Stream)
    ensures
        r.deep_view() == stream_of_request()(request.deep_view()),
{
    let ghost all = request.deep_view().listeners;
    let mut listeners: Vec<Listener> = Vec::new();
    let mut index: u32 = 0;
    let mut i: usize = 0;
    while i < request.listeners.len()
        invariant
            i <= request.listeners.len(),
            all == request.deep_view().listeners,
            index == listener_index(i as int),
            listeners.len() == i,
            forall|k: int|
                0 <= k < i ==> #[trigger] listeners.deep_view()[k] == listeners_of_request(all)[k],
        decreases request.listeners.len() - i,
    {
        let ghost before = listeners.deep_view();
        listeners.push(
            Listener {
                index,
                group_listener: request.listeners[i].clone(),
                group_status_talker_listener: new_status_block(),
            },
        );
        proof {
            assert(listeners.deep_view() =~= before.push(listeners_of_request(all)[i as int]));
        }
        if index < u32::MAX {
            index += 1;
        }
        i += 1;
    }
    proof {
        assert(listeners.deep_view() =~= listeners_of_request(all));
    }
    let status = GroupStatusStream {
        status_info: StatusInfoContainer {
            talker_status: TalkerStatus::NoTalker,
            listener_status: ListenerStatus::NoListener,
            failure_code: 0,
        },
        failed_interfaces: Vec::new(),
    };
    proof {
        assert(status.failed_interfaces.deep_view() =~= Seq::empty());
    }
    Stream {
        stream_id: request.stream_id.clone(),
        stream_status: StreamStatus::Planned,
        talker: Talker {
            group_talker: request.talker.clone(),
            group_status_talker_listener: new_status_block(),
        },
        listener: listeners,
        group_status_stream: status,
    }
}

/// The tree after each Stream of `ids` was taken in turn out of the CUC `cuc_id` of the domain
/// `domain_id`.
pub open spec fn tree_without_listed(
    tree: Seq<DomainModel>,
    domain_id: Seq<char>,
    cuc_id: Seq<char>,
    ids: Seq<Seq<char>>,
) -> Seq<DomainModel>
    decreases ids.len(),
{
    if ids.len() == 0 {
        tree
    } else {
        tree_without_stream(
            tree_without_listed(tree, domain_id, cuc_id, ids.drop_last()),
            domain_id,
            cuc_id,
            ids.last(),
        )
    }
}

/// Removing Streams that the tree does not hold leaves the tree as it is.
pub proof fn lemma_remove_missing_streams(
    tree: Seq<DomainModel>,
    domain_id: Seq<char>,
    cuc_id: Seq<char>,
    ids: Seq<Seq<char>>,
)
    requires
        forall|i: int|
            0 <= i < ids.len() ==> !tree_holds_stream(tree, domain_id, cuc_id, #[trigger] ids[i]),
    ensures
        tree_without_listed(tree, domain_id, cuc_id, ids) == tree,
    decreases ids.len(),
{
    if ids.len() > 0 {
        assert forall|i: int| 0 <= i < ids.drop_last().len() implies !tree_holds_stream(
            tree,
            domain_id,
            cuc_id,
            #[trigger] ids.drop_last()[i],
        ) by {
            assert(ids.drop_last()[i] == ids[i]);
        }
        lemma_remove_missing_streams(tree, domain_id, cuc_id, ids.drop_last());
        assert(!tree_holds_stream(tree, domain_id, cuc_id, ids[ids.len() - 1]));
        lemma_remove_missing_stream(tree, domain_id, cuc_id, ids.last());
    }
}

/// The status law. After Streams were set for a list of requests in which no id occurs twice,
/// in a tree that has the domain, the Stream of each request is at its place: modified, where
/// the place held a Stream before, and planned, where it held none.
pub proof fn lemma_status_law(
    tree: Seq<DomainModel>,
    domain_id: Seq<char>,
    cuc_id: Seq<char>,
    requests: Seq<StreamRequestModel>,
    i: int,
)
    requires
        tree_holds_domain(tree, domain_id),
        forall|a: int, b: int|
            0 <= a < b < requests.len() ==> (#[trigger] requests[a]).stream_id != (
            #[trigger] requests[b]).stream_id,
        0 <= i < requests.len(),
    ensures
        stream_at(
            tree_with_streams(
                tree,
                domain_id,
                cuc_id,
                requests.map_values(stream_of_request()),
            ),
            domain_id,
            cuc_id,
            requests[i].stream_id,
        ) == Some(
            StreamModel {
                stream_status: if tree_holds_stream(tree, domain_id, cuc_id, requests[i].stream_id) {
                    StreamStatus::Modified
                } else {
                    StreamStatus::Planned
                },
                ..stream_of_request()(requests[i])
            },
        ),
{
    let streams = requests.map_values(stream_of_request());
    assert forall|a: int, b: int| 0 <= a < b < streams.len() implies (
    #[trigger] streams[a]).stream_id != (#[trigger] streams[b]).stream_id by {
        assert(streams[a].stream_id == requests[a].stream_id);
        assert(streams[b].stream_id == requests[b].stream_id);
    }
    lemma_set_streams_status(tree, domain_id, cuc_id, streams, i);
}

/// The status law for a Stream that exists. After Streams were set for a list of requests, a
/// Stream that the tree held and that one of the requests names is at its place and modified,
/// whatever else the list holds.
pub proof fn lemma_status_law_of_existing(
    tree: Seq<DomainModel>,
    domain_id: Seq<char>,
    cuc_id: Seq<char>,
    requests: Seq<StreamRequestModel>,
    i: int,
)
    requires
        0 <= i < requests.len(),
        tree_holds_stream(tree, domain_id, cuc_id, requests[i].stream_id),
    ensures
        stream_at(
            tree_with_streams(
                tree,
                domain_id,
                cuc_id,
                requests.map_values(stream_of_request()),
            ),
            domain_id,
            cuc_id,
            requests[i].stream_id,
        ) matches Some(s) && s.stream_status == StreamStatus::Modified,
{
    let streams = requests.map_values(stream_of_request());
    assert(streams[i].stream_id == requests[i].stream_id);
    lemma_existing_stream_becomes_modified(
        tree,
        domain_id,
        cuc_id,
        streams,
        requests[i].stream_id,
    );
    lemma_holds_stream_is_stream_at(
        tree_with_streams(tree, domain_id, cuc_id, streams),
        domain_id,
        cuc_id,
        requests[i].stream_id,
    );
}

/// The part of the tree that a compute request is about.
pub open spec fn domains_to_compute(
    tree: Seq<DomainModel>,
    computation: ComputationTypeModel,
) -> Seq<DomainModel> {
    match computation {
        ComputationTypeModel::All(request) => selected(tree, request, false),
        ComputationTypeModel::PlannedAndModified(request) => selected(tree, request, true),
        ComputationTypeModel::List(request) => selected(tree, request, false),
    }
}

/// The request for every Stream of the CUC `cuc_id` of the domain `domain_id`.
pub open spec fn request_for_cuc(domain_id: Seq<char>, cuc_id: Seq<char>) -> Seq<
    compute_streams::DomainModel,
> {
    seq![
        compute_streams::DomainModel {
            domain_id,
            cuc: seq![compute_streams::CucElementModel { cuc_id, stream_list: None }],
        },
    ]
}

/// What the domain `domain_id` holds for the CUC `cuc_id`: the copy of the first domain of
/// that id with its CUCs of that id, or a disabled domain without CUCs where the tree has no
/// such domain.
pub open spec fn streams_of_cuc(
    tree: Seq<DomainModel>,
    domain_id: Seq<char>,
    cuc_id: Seq<char>,
) -> DomainModel {
    let found = selected(tree, request_for_cuc(domain_id, cuc_id), false);
    if found.len() > 0 {
        found[0]
    } else {
        DomainModel { domain_id, cnc_enabled: false, cuc: Seq::empty() }
    }
}

/// A step of the pipeline that carries out one compute request.
pub enum PipelineCall {
    /// The topology source was asked for the network.
    TopologySnapshot,
    /// The scheduler was asked to compute.
    Scheduled,
    /// What the scheduler decided was stored.
    ComputationStored,
    /// The northbound was handed the notification that the computation has ended.
    ComputationNotified,
    /// The southbound was asked to configure the network.
    NetworkConfigured,
    /// How the configuration ended was stored.
    ConfigurationStored,
    /// The northbound was handed the notification that the configuration has ended.
    ConfigurationNotified,
}

/// The steps of one computation, in the order in which they are taken: what the scheduler
/// decided is stored and the CUCs are told of it before the network is touched, so that they
/// learn of the decisions even if the configuration fails.
pub open spec fn pipeline_calls() -> Seq<PipelineCall> {
    seq![
        PipelineCall::TopologySnapshot,
        PipelineCall::Scheduled,
        PipelineCall::ComputationStored,
        PipelineCall::ComputationNotified,
        PipelineCall::NetworkConfigured,
        PipelineCall::ConfigurationStored,
        PipelineCall::ConfigurationNotified,
    ]
}

/// The steps of `n` computations, one after the other.
pub open spec fn pipeline_calls_of(n: nat) -> Seq<PipelineCall>
    decreases n,
{
    if n == 0 {
        Seq::empty()
    } else {
        pipeline_calls_of((n - 1) as nat) + pipeline_calls()
    }
}

/// The ports whose configuration is not in effect after the southbound answered `outcome`:
/// those that failed, then those that were edited but not committed.
pub open spec fn unconfigured(outcome: ConfigurationResultModel) -> FailedInterfacesModel {
    FailedInterfacesModel {
        interfaces: outcome.failed_interfaces.interfaces + outcome.uncommitted_interfaces.interfaces,
    }
}

/// The record of one computation: what it was about, what the collaborators answered, and
/// which notifications went out, in the order in which they went.
#[derive(Debug)]
pub struct ComputationRecord {
    /// The network that the topology source reported.
    pub topology: Topology,
    /// The part of the tree that the request was about.
    pub domains: Vec<Domain>,
    /// What the scheduler returned.
    pub result: ComputationResult,
    /// What the southbound returned.
    pub outcome: ConfigurationResult,
    /// The notifications that were handed to the northbound.
    pub notifications: Vec<SentNotification>,
}

/// What a [`ComputationRecord`] holds, as a mathematical value.
pub struct ComputationRecordModel {
    pub topology: TopologyModel,
    pub domains: Seq<DomainModel>,
    pub result: ComputationResultModel,
    pub outcome: ConfigurationResultModel,
    pub notifications: Seq<SentNotificationModel>,
}

impl DeepView for ComputationRecord {
    type V = ComputationRecordModel;

    open spec fn deep_view(&self) -> ComputationRecordModel {
        ComputationRecordModel {
            topology: self.topology.deep_view(),
            domains: self.domains.deep_view(),
            result: self.result.deep_view(),
            outcome: self.outcome.deep_view(),
            notifications: self.notifications.deep_view(),
        }
    }
}

/// The notification that ends the computation of a record.
pub open spec fn computation_notice(record: ComputationRecordModel) -> SentNotificationModel {
    SentNotificationModel::ComputeStreamsCompleted(
        computation_notification(record.domains, record.result.failed_streams),
    )
}

/// The notification that ends the configuration of a record. A Stream is marked failed in it
/// if a port it relies on failed; a port that is merely uncommitted marks no Stream.
pub open spec fn configuration_notice(record: ComputationRecordModel) -> SentNotificationModel {
    SentNotificationModel::ConfigureStreamsCompleted(
        configuration_notification(record.domains, record.outcome.failed_interfaces),
    )
}

/// Whether `record` is the record of carrying out `request` on the tree `tree`: it is about
/// the part of the tree that the request selects, and its notifications are the one that ends
/// the computation and then the one that ends the configuration, both about that part.
pub open spec fn record_fits(
    tree: Seq<DomainModel>,
    request: ComputationTypeModel,
    record: ComputationRecordModel,
) -> bool {
    &&& record.domains == domains_to_compute(tree, request)
    &&& record.notifications == seq![computation_notice(record), configuration_notice(record)]
}

/// The tree after the computation of `record`: what the scheduler decided is written back,
/// then every Stream that the computation was about becomes configured, or modified where a
/// port it relies on failed or is uncommitted.
pub open spec fn tree_after_record(tree: Seq<DomainModel>, record: ComputationRecordModel) -> Seq<
    DomainModel,
> {
    tree_configured(
        tree_modified(tree, record.result.domains),
        record.domains,
        unconfigured(record.outcome),
    )
}

/// The configurations after the computation of `record`: those of its schedule are set.
pub open spec fn configs_after_record(
    configs: Map<u32, ConfigModel>,
    record: ComputationRecordModel,
) -> Map<u32, ConfigModel> {
    configs_with(configs, record.result.schedule.configs)
}

/// The tree after the computations of `records`, one after the other.
pub open spec fn tree_after(tree: Seq<DomainModel>, records: Seq<ComputationRecordModel>) -> Seq<
    DomainModel,
>
    decreases records.len(),
{
    if records.len() == 0 {
        tree
    } else {
        tree_after_record(tree_after(tree, records.drop_last()), records.last())
    }
}

/// The configurations after the computations of `records`, one after the other.
pub open spec fn configs_after(
    configs: Map<u32, ConfigModel>,
    records: Seq<ComputationRecordModel>,
) -> Map<u32, ConfigModel>
    decreases records.len(),
{
    if records.len() == 0 {
        configs
    } else {
        configs_after_record(configs_after(configs, records.drop_last()), records.last())
    }
}

/// Whether `records` are the records of carrying out `requests` one after the other, starting
/// on the tree `tree`: one record for each request, each fitting its request and the tree that
/// the computations before it left.
pub open spec fn records_fit(
    tree: Seq<DomainModel>,
    requests: Seq<ComputationTypeModel>,
    records: Seq<ComputationRecordModel>,
) -> bool
    decreases records.len(),
{
    &&& records.len() == requests.len()
    &&& records.len() > 0 ==> records_fit(tree, requests.drop_last(), records.drop_last())
        && record_fits(tree_after(tree, records.drop_last()), requests.last(), records.last())
}

/// The computations of a record keep the tree well-formed.
pub proof fn lemma_record_keeps_tree_well_formed(tree: Seq<DomainModel>, record: ComputationRecordModel)
    requires
        tree_well_formed(tree),
    ensures
        tree_well_formed(tree_after_record(tree, record)),
{
    lemma_modify_keeps_tree_well_formed(tree, record.result.domains);
    lemma_configured_keeps_tree_well_formed(
        tree_modified(tree, record.result.domains),
        record.domains,
        unconfigured(record.outcome),
    );
}

/// The controller.
pub struct Cnc<
    N: NorthboundAdapterInterface,
    S: SouthboundAdapterInterface,
    St: StorageAdapterInterface,
    T: TopologyAdapterInterface,
    C: SchedulerAdapterInterface,
> {
    id: u32,
    pending: Vec<ComputationType>,
    northbound: N,
    southbound: S,
    storage: St,
    topology: T,
    scheduler: C,
    operating: bool,
    calls: Ghost<Seq<PipelineCall>>,
}

impl<
    N: NorthboundAdapterInterface,
    S: SouthboundAdapterInterface,
    St: StorageAdapterInterface,
    T: TopologyAdapterInterface,
    C: SchedulerAdapterInterface,
> Cnc<N, S, St, T, C> {
    /// The controller's store.
    pub closed spec fn store(&self) -> St {
        self.storage
    }

    /// The Domain tree that the controller's store holds.
    pub open spec fn tree(&self) -> Seq<DomainModel> {
        self.store().tree()
    }

    /// The configuration that the controller's store holds for each Bridge.
    pub open spec fn configs(&self) -> Map<u32, ConfigModel> {
        self.store().configs()
    }

    /// The id of the configuration domain that the controller serves: the domain in which
    /// Streams are set and removed.
    pub open spec fn storage_domain(&self) -> Seq<char> {
        self.store().domain_id()
    }

    /// The id of the controller.
    pub closed spec fn controller_id(&self) -> u32 {
        self.id
    }

    /// The compute requests that wait to be carried out, oldest first.
    pub closed spec fn pending(&self) -> Seq<ComputationTypeModel> {
        self.pending.deep_view()
    }

    /// Whether the controller still takes and carries out compute requests.
    pub closed spec fn operating(&self) -> bool {
        self.operating
    }

    /// Whether what the controller's store holds is what is saved.
    pub open spec fn saved(&self) -> bool {
        self.store().saved()
    }

    /// The steps of the pipeline that the controller has taken so far, oldest first.
    pub closed spec fn calls(&self) -> Seq<PipelineCall> {
        self.calls@
    }

    /// Whether this state and `other` agree in what no step of the pipeline touches: the id and
    /// the domain of the controller, whether it is operating, what waits, the topology source
    /// and the scheduler.
    pub open spec fn same_settings(&self, other: &Self) -> bool {
        &&& self.controller_id() == other.controller_id()
        &&& self.storage_domain() == other.storage_domain()
        &&& self.operating() == other.operating()
        &&& self.pending() == other.pending()
        &&& self.topology_adapter() == other.topology_adapter()
        &&& self.scheduler_adapter() == other.scheduler_adapter()
    }

    /// Whether `after` is what carrying out `request` makes of the controller in this state,
    /// with `record` the record of it.
    ///
    /// The record fits the request. Each answer in it is one that the collaborator may give to
    /// what it was asked: the topology source for the network, the scheduler for the Streams
    /// selected in that network, the southbound for the schedule of the scheduler in that
    /// network. The northbound was handed the two notifications of the record, the one on the
    /// computation first. The tree and the configurations are those that the record leaves.
    /// The steps were taken in the order of [`pipeline_calls`].
    pub open spec fn carried_out(
        &self,
        request: ComputationTypeModel,
        record: ComputationRecordModel,
        after: &Self,
    ) -> bool {
        &&& record_fits(self.tree(), request, record)
        &&& self.topology_adapter().may_report(record.topology)
        &&& self.scheduler_adapter().may_answer(record.topology, record.domains, record.result)
        &&& self.southbound_adapter().may_configure(
            record.topology,
            record.result.schedule,
            record.outcome,
            &after.southbound_adapter(),
        )
        &&& exists|between: N|
            self.northbound_adapter().takes(computation_notice(record), &between)
                && #[trigger] between.takes(configuration_notice(record), &after.northbound_adapter())
        &&& after.tree() == tree_after_record(self.tree(), record)
        &&& after.configs() == configs_after_record(self.configs(), record)
        &&& self.saved() ==> after.saved()
        &&& after.calls() == self.calls() + pipeline_calls()
        &&& after.controller_id() == self.controller_id()
        &&& after.storage_domain() == self.storage_domain()
        &&& after.operating() == self.operating()
        &&& after.topology_adapter() == self.topology_adapter()
        &&& after.scheduler_adapter() == self.scheduler_adapter()
    }

    /// Whether `after` holds what this state holds, but for what waits and for whether the
    /// controller is operating: the store, the collaborators, the steps taken and the id are
    /// the same.
    pub open spec fn at_rest(&self, after: &Self) -> bool {
        &&& after.store() == self.store()
        &&& after.northbound_adapter() == self.northbound_adapter()
        &&& after.southbound_adapter() == self.southbound_adapter()
        &&& after.topology_adapter() == self.topology_adapter()
        &&& after.scheduler_adapter() == self.scheduler_adapter()
        &&& after.calls() == self.calls()
        &&& after.controller_id() == self.controller_id()
    }

    /// Whether `after` is what carrying out `requests` one after the other makes of the
    /// controller in this state, with `records` the records of them in that order: each
    /// request is carried out, as [`Cnc::carried_out`] says, on what the requests before it
    /// left.
    pub open spec fn carried_out_all(
        &self,
        requests: Seq<ComputationTypeModel>,
        records: Seq<ComputationRecordModel>,
        after: &Self,
    ) -> bool
        decreases records.len(),
    {
        &&& records.len() == requests.len()
        &&& if records.len() == 0 {
            self.at_rest(after) && after.operating() == self.operating()
        } else {
            exists|between: Self|
                self.carried_out_all(requests.drop_last(), records.drop_last(), &between)
                    && #[trigger] between.carried_out(requests.last(), records.last(), after)
        }
    }

    /// What waits, and whether the controller is operating before the first request, has no
    /// part in what carrying out requests makes of a controller: where `later` holds what
    /// `first` holds, what is carried out from `later` is carried out from `first`.
    pub proof fn lemma_carried_out_from_rest(
        first: &Self,
        later: &Self,
        requests: Seq<ComputationTypeModel>,
        records: Seq<ComputationRecordModel>,
        after: &Self,
    )
        requires
            first.at_rest(later),
            first.operating() == later.operating(),
            later.carried_out_all(requests, records, after),
        ensures
            first.carried_out_all(requests, records, after),
        decreases records.len(),
    {
        if records.len() > 0 {
            let between = choose|between: Self|
                later.carried_out_all(requests.drop_last(), records.drop_last(), &between)
                    && #[trigger] between.carried_out(requests.last(), records.last(), after);
            if records.len() == 1 {
                assert(first.carried_out(requests.last(), records.last(), after));
                assert(first.carried_out_all(requests.drop_last(), records.drop_last(), first));
            } else {
                Self::lemma_carried_out_from_rest(
                    first,
                    later,
                    requests.drop_last(),
                    records.drop_last(),
                    &between,
                );
            }
        }
    }

    /// The northbound of the controller.
    pub closed spec fn northbound_adapter(&self) -> N {
        self.northbound
    }

    /// The southbound of the controller.
    pub closed spec fn southbound_adapter(&self) -> S {
        self.southbound
    }

    /// The topology source of the controller.
    pub closed spec fn topology_adapter(&self) -> T {
        self.topology
    }

    /// The scheduler of the controller.
    pub closed spec fn scheduler_adapter(&self) -> C {
        self.scheduler
    }

    /// A controller with the given collaborators. It serves the domain of its store, and it
    /// makes the store ready: the store holds what had been saved, and the controller's own
    /// domain.
    pub fn new(id: u32, northbound: N, southbound: S, storage: St, topology: T, scheduler: C) -> (r:
        Self)
        ensures
            r.controller_id() == id,
            r.storage_domain() == storage.domain_id(),
            storage.may_become_ready(&r.store()),
            tree_holds_domain(r.tree(), r.storage_domain()),
            r.saved(),
            r.pending() == Seq::<ComputationTypeModel>::empty(),
            r.operating(),
            r.calls() == Seq::<PipelineCall>::empty(),
            r.northbound_adapter() == northbound,
            r.southbound_adapter() == southbound,
            r.topology_adapter() == topology,
            r.scheduler_adapter() == scheduler,
    {
        let mut storage = storage;
        storage.configure_storage();
        let pending: Vec<ComputationType> = Vec::new();
        proof {
            assert(pending.deep_view() =~= Seq::<ComputationTypeModel>::empty());
        }
        Cnc {
            id,
            pending,
            northbound,
            southbound,
            storage,
            topology,
            scheduler,
            operating: true,
            calls: Ghost(Seq::empty()),
        }
    }

    /// The id of the controller.
    pub fn id(&self) -> (r: u32)
        ensures
            r == self.controller_id(),
    {
        self.id
    }

    /// The id of the configuration domain that the controller serves.
    pub fn domain(&self) -> (r: &String)
        ensures
            r@ == self.storage_domain(),
    {
        self.storage.domain()
    }

    /// The store of the controller.
    pub fn storage(&self) -> (r: &St)
        ensures
            *r == self.store(),
    {
        &self.storage
    }

    /// The northbound of the controller.
    pub fn northbound(&self) -> (r: &N)
        ensures
            *r == self.northbound_adapter(),
    {
        &self.northbound
    }

    /// The southbound of the controller.
    pub fn southbound(&self) -> (r: &S)
        ensures
            *r == self.southbound_adapter(),
    {
        &self.southbound
    }

    /// The topology source of the controller.
    pub fn topology(&self) -> (r: &T)
        ensures
            *r == self.topology_adapter(),
    {
        &self.topology
    }

    /// The scheduler of the controller.
    pub fn scheduler(&self) -> (r: &C)
        ensures
            *r == self.scheduler_adapter(),
    {
        &self.scheduler
    }

    /// Says whether the controller still takes and carries out compute requests.
    pub fn is_operating(&self) -> (r: bool)
        ensures
            r == self.operating(),
    {
        self.operating
    }

    /// Switches the controller on or off. A controller that is off takes no compute request
    /// and carries none out; a computation that has begun is not interrupted.
    pub fn set_operating(&mut self, value: bool)
        ensures
            final(self).operating() == value,
            old(self).at_rest(final(self)),
            final(self).tree() == old(self).tree(),
            final(self).configs() == old(self).configs(),
            final(self).saved() == old(self).saved(),
            final(self).storage_domain() == old(self).storage_domain(),
            final(self).pending() == old(self).pending(),
            final(self).controller_id() == old(self).controller_id(),
    {
        self.operating = value;
    }

    /// Copies out of the tree what `computation` is about.
    pub fn get_domains_to_compute(&self, computation: ComputationType) -> (r: Vec<Domain>)
        ensures
            r.deep_view() == domains_to_compute(self.tree(), computation.deep_view()),
    {
        match computation {
            ComputationType::All(request) => self.storage.get_streams_in_domains(request),
            ComputationType::PlannedAndModified(request) => {
                self.storage.get_planned_and_modified_streams_in_domains(request)
            },
            ComputationType::List(request) => self.storage.get_streams_in_domains(request),
        }
    }

    /// Asks the topology source for the network.
    fn take_snapshot(&mut self) -> (r: Topology)
        ensures
            old(self).topology_adapter().may_report(r.deep_view()),
            final(self).calls() == old(self).calls().push(PipelineCall::TopologySnapshot),
            final(self).same_settings(old(self)),
            final(self).tree() == old(self).tree(),
            final(self).configs() == old(self).configs(),
            final(self).saved() == old(self).saved(),
            final(self).northbound_adapter() == old(self).northbound_adapter(),
            final(self).southbound_adapter() == old(self).southbound_adapter(),
    {
        let r = self.topology.get_topology();
        proof {
            self.calls@ = self.calls@.push(PipelineCall::TopologySnapshot);
        }
        r
    }

    /// Asks the scheduler to compute for `domains` in the network `topology`.
    fn schedule(&mut self, topology: &Topology, domains: &Vec<Domain>) -> (r: ComputationResult)
        ensures
            old(self).scheduler_adapter().may_answer(
                topology.deep_view(),
                domains.deep_view(),
                r.deep_view(),
            ),
            final(self).calls() == old(self).calls().push(PipelineCall::Scheduled),
            final(self).same_settings(old(self)),
            final(self).tree() == old(self).tree(),
            final(self).configs() == old(self).configs(),
            final(self).saved() == old(self).saved(),
            final(self).northbound_adapter() == old(self).northbound_adapter(),
            final(self).southbound_adapter() == old(self).southbound_adapter(),
    {
        let r = self.scheduler.compute_schedule(topology, domains);
        proof {
            self.calls@ = self.calls@.push(PipelineCall::Scheduled);
        }
        r
    }

    /// Stores what a scheduler decided for `domains` and builds the notification that ends the
    /// computation: the configurations of `result` are set, its Streams are written back into
    /// the tree, and the notification lists exactly the Streams of `domains`.
    pub fn computation_completed(
        &mut self,
        domains: &Vec<Domain>,
        result: &ComputationResult,
    ) -> (r: NotificationContent)
        ensures
            r.deep_view() == computation_notification(
                domains.deep_view(),
                result.deep_view().failed_streams,
            ),
            final(self).tree() == tree_modified(old(self).tree(), result.deep_view().domains),
            final(self).configs() == configs_with(
                old(self).configs(),
                result.deep_view().schedule.configs,
            ),
            tree_well_formed(old(self).tree()) ==> tree_well_formed(final(self).tree()),
            old(self).saved() ==> final(self).saved(),
            final(self).calls() == old(self).calls().push(PipelineCall::ComputationStored),
            final(self).same_settings(old(self)),
            final(self).northbound_adapter() == old(self).northbound_adapter(),
            final(self).southbound_adapter() == old(self).southbound_adapter(),
    {
        self.storage.set_configs(&result.schedule.configs);
        self.storage.modify_streams(&result.domains);
        proof {
            self.calls@ = self.calls@.push(PipelineCall::ComputationStored);
        }
        create_computation_notification(domains, &result.failed_streams)
    }

    /// Hands the northbound the notification that a computation has ended.
    fn notify_computation(&mut self, notification: NotificationContent)
        ensures
            old(self).northbound_adapter().takes(
                SentNotificationModel::ComputeStreamsCompleted(notification.deep_view()),
                &final(self).northbound_adapter(),
            ),
            final(self).calls() == old(self).calls().push(PipelineCall::ComputationNotified),
            final(self).same_settings(old(self)),
            final(self).tree() == old(self).tree(),
            final(self).configs() == old(self).configs(),
            final(self).saved() == old(self).saved(),
            final(self).southbound_adapter() == old(self).southbound_adapter(),
    {
        self.northbound.compute_streams_completed(notification);
        proof {
            self.calls@ = self.calls@.push(PipelineCall::ComputationNotified);
        }
    }

    /// Asks the southbound to write `schedule` to the Bridges of `topology`.
    fn configure(&mut self, topology: &Topology, schedule: &Schedule) -> (r: ConfigurationResult)
        ensures
            old(self).southbound_adapter().may_configure(
                topology.deep_view(),
                schedule.deep_view(),
                r.deep_view(),
                &final(self).southbound_adapter(),
            ),
            final(self).calls() == old(self).calls().push(PipelineCall::NetworkConfigured),
            final(self).same_settings(old(self)),
            final(self).tree() == old(self).tree(),
            final(self).configs() == old(self).configs(),
            final(self).saved() == old(self).saved(),
            final(self).northbound_adapter() == old(self).northbound_adapter(),
    {
        let r = self.southbound.configure_network(topology, schedule);
        proof {
            self.calls@ = self.calls@.push(PipelineCall::NetworkConfigured);
        }
        r
    }

    /// Stores how the configuration of `domains` ended and builds the notification that says
    /// so. Each Stream of the tree that `domains` names becomes configured, or modified where
    /// a port it relies on failed or was edited but not committed. The notification lists
    /// exactly the Streams of `domains` and marks those that rely on a failed port.
    pub fn configuration_completed(
        &mut self,
        domains: &Vec<Domain>,
        outcome: &ConfigurationResult,
    ) -> (r: NotificationContent)
        ensures
            r.deep_view() == configuration_notification(
                domains.deep_view(),
                outcome.deep_view().failed_interfaces,
            ),
            final(self).tree() == tree_configured(
                old(self).tree(),
                domains.deep_view(),
                unconfigured(outcome.deep_view()),
            ),
            final(self).configs() == old(self).configs(),
            tree_well_formed(old(self).tree()) ==> tree_well_formed(final(self).tree()),
            old(self).saved() ==> final(self).saved(),
            final(self).calls() == old(self).calls().push(PipelineCall::ConfigurationStored),
            final(self).same_settings(old(self)),
            final(self).northbound_adapter() == old(self).northbound_adapter(),
            final(self).southbound_adapter() == old(self).southbound_adapter(),
    {
        let mut interfaces = outcome.failed_interfaces.interfaces.clone();
        let mut uncommitted = outcome.uncommitted_interfaces.interfaces.clone();
        proof {
            assert(interfaces.deep_view() =~= outcome.deep_view().failed_interfaces.interfaces);
            assert(uncommitted.deep_view()
                =~= outcome.deep_view().uncommitted_interfaces.interfaces);
        }
        interfaces.append(&mut uncommitted);
        let not_in_effect = FailedInterfaces { interfaces };
        proof {
            assert(not_in_effect.deep_view().interfaces =~= unconfigured(
                outcome.deep_view(),
            ).interfaces);
        }
        self.storage.set_streams_configured(domains, &not_in_effect);
        proof {
            self.calls@ = self.calls@.push(PipelineCall::ConfigurationStored);
        }
        create_configuration_notification(domains, &outcome.failed_interfaces)
    }

    /// Hands the northbound the notification that a configuration has ended.
    fn notify_configuration(&mut self, notification: NotificationContent)
        ensures
            old(self).northbound_adapter().takes(
                SentNotificationModel::ConfigureStreamsCompleted(notification.deep_view()),
                &final(self).northbound_adapter(),
            ),
            final(self).calls() == old(self).calls().push(PipelineCall::ConfigurationNotified),
            final(self).same_settings(old(self)),
            final(self).tree() == old(self).tree(),
            final(self).configs() == old(self).configs(),
            final(self).saved() == old(self).saved(),
            final(self).southbound_adapter() == old(self).southbound_adapter(),
    {
        self.northbound.configure_streams_completed(notification);
        proof {
            self.calls@ = self.calls@.push(PipelineCall::ConfigurationNotified);
        }
    }

    /// Carries out one compute request: takes a snapshot of the topology, copies the Streams
    /// asked for, has the scheduler compute, stores what it decided, notifies the CUCs of the
    /// computation, has the southbound configure the network, stores how that ended and
    /// notifies the CUCs of the configuration.
    ///
    /// What the collaborators answer is theirs to decide; the record that comes back holds
    /// their answers, and [`Cnc::carried_out`] states everything else over them.
    pub fn execute_computation(&mut self, computation_type: ComputationType) -> (r:
        ComputationRecord)
        ensures
            old(self).carried_out(computation_type.deep_view(), r.deep_view(), final(self)),
            final(self).pending() == old(self).pending(),
            tree_well_formed(old(self).tree()) ==> tree_well_formed(final(self).tree()),
            old(self).saved() ==> final(self).saved(),
    {
        let ghost request = computation_type.deep_view();
        let topology = self.take_snapshot();
        let domains = self.get_domains_to_compute(computation_type);
        let result = self.schedule(&topology, &domains);
        let mut notifications: Vec<SentNotification> = Vec::new();

        let computed = self.computation_completed(&domains, &result);
        let computed_copy = computed.clone();
        proof {
            assert(computed_copy.deep_view() =~= computed.deep_view());
        }
        self.notify_computation(computed);
        let ghost between = self.northbound;
        notifications.push(SentNotification::ComputeStreamsCompleted(computed_copy));

        let outcome = self.configure(&topology, &result.schedule);

        let configured = self.configuration_completed(&domains, &outcome);
        let configured_copy = configured.clone();
        proof {
            assert(configured_copy.deep_view() =~= configured.deep_view());
        }
        self.notify_configuration(configured);
        notifications.push(SentNotification::ConfigureStreamsCompleted(configured_copy));

        let r = ComputationRecord { topology, domains, result, outcome, notifications };
        proof {
            let record = r.deep_view();
            assert(record.notifications =~= seq![
                computation_notice(record),
                configuration_notice(record),
            ]);
            assert(self.calls() =~= old(self).calls() + pipeline_calls());
            assert(old(self).northbound_adapter().takes(computation_notice(record), &between)
                && between.takes(configuration_notice(record), &self.northbound_adapter()));
            if tree_well_formed(old(self).tree()) {
                lemma_record_keeps_tree_well_formed(old(self).tree(), record);
            }
        }
        r
    }

    /// Carries out the oldest compute request that waits, if the controller is operating and
    /// there is one, and hands back the record of it. Nothing changes otherwise.
    pub fn execute_next(&mut self) -> (r: Option<ComputationRecord>)
        ensures
            r is Some <==> old(self).operating() && old(self).pending().len() > 0,
            r matches Some(record) ==> old(self).carried_out(
                old(self).pending()[0],
                record.deep_view(),
                final(self),
            ) && final(self).pending() == old(self).pending().drop_first(),
            r is None ==> final(self).same_settings(old(self)),
            r is None ==> final(self).tree() == old(self).tree(),
            r is None ==> final(self).configs() == old(self).configs(),
            r is None ==> final(self).calls() == old(self).calls(),
            r is None ==> final(self).saved() == old(self).saved(),
            r is None ==> final(self).northbound_adapter() == old(self).northbound_adapter(),
            r is None ==> final(self).southbound_adapter() == old(self).southbound_adapter(),
            tree_well_formed(old(self).tree()) ==> tree_well_formed(final(self).tree()),
            old(self).saved() ==> final(self).saved(),
    {
        if self.operating && self.pending.len() > 0 {
            let ghost before = self.pending.deep_view();
            let request = self.pending.remove(0);
            proof {
                assert(self.pending.deep_view() =~= before.drop_first());
            }
            let ghost popped = *self;
            let record = self.execute_computation(request);
            proof {
                assert(popped.carried_out(before[0], record.deep_view(), self));
            }
            Some(record)
        } else {
            None
        }
    }

    /// Carries out the compute requests that wait, oldest first and one at a time, until none
    /// is left, and hands back the records of them in that order. A controller that is not
    /// operating carries none out.
    pub fn run(&mut self) -> (r: Vec<ComputationRecord>)
        ensures
            old(self).operating() ==> final(self).pending().len() == 0,
            old(self).operating() ==> old(self).carried_out_all(
                old(self).pending(),
                r.deep_view(),
                final(self),
            ),
            !old(self).operating() ==> old(self).at_rest(final(self)),
            old(self).operating() ==> records_fit(
                old(self).tree(),
                old(self).pending(),
                r.deep_view(),
            ),
            !old(self).operating() ==> r.len() == 0 && final(self).pending() == old(self).pending(),
            final(self).tree() == tree_after(old(self).tree(), r.deep_view()),
            final(self).configs() == configs_after(old(self).configs(), r.deep_view()),
            final(self).calls() == old(self).calls() + pipeline_calls_of(r.len() as nat),
            tree_well_formed(old(self).tree()) ==> tree_well_formed(final(self).tree()),
            old(self).saved() ==> final(self).saved(),
            final(self).controller_id() == old(self).controller_id(),
            final(self).storage_domain() == old(self).storage_domain(),
            final(self).operating() == old(self).operating(),
            final(self).topology_adapter() == old(self).topology_adapter(),
            final(self).scheduler_adapter() == old(self).scheduler_adapter(),
    {
        let ghost requests = self.pending.deep_view();
        let mut records: Vec<ComputationRecord> = Vec::new();
        proof {
            assert(records.deep_view() =~= Seq::<ComputationRecordModel>::empty());
            assert(requests.take(0) =~= Seq::<ComputationTypeModel>::empty());
            assert(requests.skip(0) =~= requests);
            assert(self.calls() + pipeline_calls_of(0) =~= self.calls());
        }
        while self.operating && self.pending.len() > 0
            invariant
                requests == old(self).pending(),
                records.len() <= requests.len(),
                self.pending() == requests.skip(records.len() as int),
                records_fit(
                    old(self).tree(),
                    requests.take(records.len() as int),
                    records.deep_view(),
                ),
                !old(self).operating() ==> records.len() == 0,
                old(self).carried_out_all(
                    requests.take(records.len() as int),
                    records.deep_view(),
                    self,
                ),
                self.tree() == tree_after(old(self).tree(), records.deep_view()),
                self.configs() == configs_after(old(self).configs(), records.deep_view()),
                self.calls() == old(self).calls() + pipeline_calls_of(records.len() as nat),
                tree_well_formed(old(self).tree()) ==> tree_well_formed(self.tree()),
                old(self).saved() ==> self.saved(),
                self.controller_id() == old(self).controller_id(),
                self.storage_domain() == old(self).storage_domain(),
                self.operating() == old(self).operating(),
                self.topology_adapter() == old(self).topology_adapter(),
                self.scheduler_adapter() == old(self).scheduler_adapter(),
            decreases self.pending().len(),
        {
            let ghost done = records.deep_view();
            let ghost n = records.len() as int;
            proof {
                assert(self.pending.deep_view().len() == self.pending.len());
            }
            let ghost reached = *self;
            match self.execute_next() {
                Some(record) => {
                    records.push(record);
                    proof {
                        let all = records.deep_view();
                        assert(all =~= done.push(record.deep_view()));
                        assert(all.drop_last() =~= done);
                        assert(requests.take(n + 1).drop_last() =~= requests.take(n));
                        assert(requests.take(n + 1).last() == requests[n]);
                        assert(requests.skip(n)[0] == requests[n]);
                        assert(reached.carried_out(requests[n], all.last(), self));
                        assert(requests.skip(n).drop_first() =~= requests.skip(n + 1));
                        assert(self.calls() =~= old(self).calls() + pipeline_calls_of(
                            (n + 1) as nat,
                        ));
                    }
                },
                None => {},
            }
        }
        proof {
            if old(self).operating() {
                assert(requests.skip(records.len() as int).len() == 0);
                assert(requests.take(records.len() as int) =~= requests);
            }
        }
        records
    }
}

/// What the controller answers to each request of a CUC.
impl<
    N: NorthboundAdapterInterface,
    S: SouthboundAdapterInterface,
    St: StorageAdapterInterface,
    T: TopologyAdapterInterface,
    C: SchedulerAdapterInterface,
> NorthboundControllerInterface for Cnc<N, S, St, T, C> {
    /// Takes a compute request into the queue and answers `Success`. A controller that was
    /// stopped takes none and answers that its channel is closed.
    fn compute_streams(&mut self, computation: ComputationType) -> (r: String)
        ensures
            old(self).operating() ==> r@ == "Success"@ && final(self).pending() == old(
                self).pending().push(computation.deep_view()),
            !old(self).operating() ==> r@ == "sending on a closed channel"@ && final(
                self).pending() == old(self).pending(),
            old(self).at_rest(final(self)),
            final(self).tree() == old(self).tree(),
            final(self).configs() == old(self).configs(),
            final(self).saved() == old(self).saved(),
            final(self).storage_domain() == old(self).storage_domain(),
            final(self).operating() == old(self).operating(),
            final(self).controller_id() == old(self).controller_id(),
    {
        if self.operating {
            let ghost before = self.pending.deep_view();
            let ghost request = computation.deep_view();
            self.pending.push(computation);
            proof {
                assert(self.pending.deep_view() =~= before.push(request));
            }
            String::from_str("Success")
        } else {
            String::from_str("sending on a closed channel")
        }
    }

    /// Answers with the id of the first domain that has the CUC `input`, or with `Failure`
    /// where no domain has it.
    fn request_domain_id(&self, input: String) -> (r: String)
        ensures
            r@ == (match domain_id_of_cuc(self.tree(), input@) {
                Some(id) => id,
                None => "Failure"@,
            }),
    {
        match self.storage.get_domain_id_of_cuc(input) {
            Some(domain_id) => domain_id,
            None => String::from_str("Failure"),
        }
    }

    /// Answers with the Stream id that the store offers, which no Stream of the tree has, in
    /// whatever domain and CUC, or with `no id` where the store offers none. When a store
    /// offers none is the store's to say; [`FileStorage`](crate::cnc::storage::FileStorage)
    /// offers none only if every id that it could hand out is taken.
    fn request_free_stream_id(&self, input: request_free_stream_id::Input) -> (r: String)
        ensures
            r@ == "no id"@ || (is_stream_id(r@) && !stream_id_in_use(self.tree(), r@)),
    {
        match self.storage.get_free_stream_id(input.domain_id, input.cuc_id) {
            Some(id) => id,
            None => String::from_str("no id"),
        }
    }

    /// Takes each Stream of `input` in turn out of the CUC `cuc_id` of the controller's own
    /// domain, and answers `Success`. A Stream that the CUC does not hold is passed over.
    fn remove_streams(&mut self, cuc_id: &String, input: Vec<String>) -> (r: String)
        ensures
            r@ == "Success"@,
            final(self).tree() == tree_without_listed(
                old(self).tree(),
                old(self).storage_domain(),
                cuc_id@,
                input.deep_view(),
            ),
            (forall|i: int|
                0 <= i < input.len() ==> !tree_holds_stream(
                    old(self).tree(),
                    old(self).storage_domain(),
                    cuc_id@,
                    #[trigger] input.deep_view()[i],
                )) ==> final(self).tree() == old(self).tree(),
            final(self).configs() == old(self).configs(),
            tree_well_formed(old(self).tree()) ==> tree_well_formed(final(self).tree()),
            old(self).saved() ==> final(self).saved(),
            final(self).storage_domain() == old(self).storage_domain(),
            final(self).pending() == old(self).pending(),
            final(self).operating() == old(self).operating(),
            final(self).controller_id() == old(self).controller_id(),
    {
        let ghost all = input.deep_view();
        let mut i: usize = 0;
        while i < input.len()
            invariant
                i <= input.len(),
                all == input.deep_view(),
                self.tree() == tree_without_listed(
                    old(self).tree(),
                    old(self).storage_domain(),
                    cuc_id@,
                    all.take(i as int),
                ),
                self.configs() == old(self).configs(),
                tree_well_formed(old(self).tree()) ==> tree_well_formed(self.tree()),
                old(self).saved() ==> self.saved(),
                self.storage_domain() == old(self).storage_domain(),
                self.pending() == old(self).pending(),
                self.operating() == old(self).operating(),
                self.controller_id() == old(self).controller_id(),
            decreases input.len() - i,
        {
            self.storage.remove_stream(cuc_id, input[i].clone());
            proof {
                assert(all.take(i + 1).drop_last() =~= all.take(i as int));
                assert(all.take(i + 1).last() == all[i as int]);
            }
            i += 1;
        }
        proof {
            assert(all.take(i as int) =~= all);
            if forall|i: int|
                0 <= i < all.len() ==> !tree_holds_stream(
                    old(self).tree(),
                    old(self).storage_domain(),
                    cuc_id@,
                    #[trigger] all[i],
                ) {
                lemma_remove_missing_streams(
                    old(self).tree(),
                    old(self).storage_domain(),
                    cuc_id@,
                    all,
                );
            }
        }
        String::from_str("Success")
    }

    /// Creates or replaces a Stream of the CUC `cuc_id` of the controller's own domain for each
    /// request, in turn: a request for an id that the CUC does not hold creates a planned
    /// Stream, a request for an id that it holds replaces that Stream and marks it modified.
    fn set_streams(&mut self, cuc_id: &String, request: Vec<StreamRequest>)
        ensures
            final(self).tree() == tree_with_streams(
                old(self).tree(),
                old(self).storage_domain(),
                cuc_id@,
                request.deep_view().map_values(stream_of_request()),
            ),
            final(self).configs() == old(self).configs(),
            tree_well_formed(old(self).tree()) ==> tree_well_formed(final(self).tree()),
            old(self).saved() ==> final(self).saved(),
            final(self).storage_domain() == old(self).storage_domain(),
            final(self).pending() == old(self).pending(),
            final(self).operating() == old(self).operating(),
            final(self).controller_id() == old(self).controller_id(),
    {
        let ghost all = request.deep_view();
        let ghost f = stream_of_request();
        let mut streams: Vec<Stream> = Vec::new();
        let mut i: usize = 0;
        proof {
            assert(streams.deep_view() =~= all.take(0).map_values(f));
        }
        while i < request.len()
            invariant
                i <= request.len(),
                all == request.deep_view(),
                f == stream_of_request(),
                streams.deep_view() == all.take(i as int).map_values(f),
            decreases request.len() - i,
        {
            let ghost before = streams.deep_view();
            streams.push(new_stream(&request[i]));
            proof {
                assert(streams.deep_view() =~= before.push(f(all[i as int])));
                assert(all.take(i + 1) =~= all.take(i as int).push(all[i as int]));
                all.take(i as int).lemma_push_map_commute(f, all[i as int]);
            }
            i += 1;
        }
        proof {
            assert(all.take(i as int) =~= all);
        }
        self.storage.set_streams(cuc_id, &streams);
    }

    /// Everything that the controller's own domain holds for the CUC `cuc_id`.
    fn get_streams(&self, cuc_id: &String) -> (r: Domain)
        ensures
            r.deep_view() == streams_of_cuc(self.tree(), self.storage_domain(), cuc_id@),
    {
        let mut cucs: Vec<compute_streams::CucElement> = Vec::new();
        cucs.push(compute_streams::CucElement { cuc_id: cuc_id.clone(), stream_list: None });
        let search_domain = compute_streams::Domain {
            domain_id: self.storage.domain().clone(),
            cuc: cucs,
        };
        proof {
            assert(search_domain.cuc.deep_view() =~= seq![
                compute_streams::CucElementModel { cuc_id: cuc_id@, stream_list: None },
            ]);
        }
        let mut domains = self.storage.get_streams_in_domain(search_domain);
        if domains.len() > 0 {
            let ghost found = domains.deep_view();
            let first = domains.swap_remove(0);
            proof {
                assert(first.deep_view() == found[0]);
            }
            first
        } else {
            let r = Domain {
                domain_id: self.storage.domain().clone(),
                cnc_enabled: false,
                cuc: Vec::new(),
            };
            proof {
                assert(r.cuc.deep_view() =~= Seq::<CucModel>::empty());
            }
            r
        }
    }
}

impl<
    N: NorthboundAdapterInterface,
    S: SouthboundAdapterInterface,
    St: StorageAdapterInterface,
    T: TopologyAdapterInterface,
    C: SchedulerAdapterInterface,
> TopologyControllerInterface for Cnc<N, S, St, T, C> {
    /// Takes note that the network has changed. The controller does nothing about it: Streams
    /// are computed again only when a CUC asks.
    fn notify_topology_changed(&self) {
    }
}

} // verus!
