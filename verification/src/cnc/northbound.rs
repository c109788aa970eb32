//! The side of the controller that faces the CUCs.

use crate::cnc::scheduling::SchedulerAdapterInterface;
use crate::cnc::storage::integrity::tree_well_formed;
use crate::cnc::storage::{tree_with_streams, StorageAdapterInterface};
use crate::cnc::southbound::SouthboundAdapterInterface;
use crate::cnc::topology::TopologyAdapterInterface;
use crate::cnc::types::computation::{ComputationType, ComputationTypeModel};
use crate::cnc::types::notification_types;
use crate::cnc::types::notification_types::NotificationContent;
use crate::cnc::types::tsn_types::{
    DataFrameSpecificationElement, DataFrameSpecificationElementModel,
    DataFrameSpecificationElementType, DataFrameSpecificationElementTypeModel,
    GroupIeee802MacAddress, GroupIeee802MacAddressModel, GroupIeee802VlanTag,
    GroupInterfaceCapabilities, GroupInterfaceCapabilitiesModel, GroupInterfaceId,
    GroupInterfaceIdModel, GroupListener, GroupListenerModel, GroupTalker, GroupTalkerModel,
    GroupUserToNetworkRequirements, StreamRankContainer, TimeAwareContainer,
    TrafficSpecificationContainer, TrafficSpecificationInterval,
};
use crate::cnc::types::uni_types::{
    compute_streams, remove_streams, request_domain_id, request_free_stream_id, Domain,
    DomainModel,
};
use crate::cnc::types::{StreamRequest, StreamRequestModel};
use crate::cnc::{
    configs_after, records_fit, request_for_cuc, stream_of_request, streams_of_cuc, tree_after,
    tree_without_listed, Cnc, ComputationRecord,
};
use vstd::prelude::*;
use vstd::string::*;

verus! {

/// What carries the controller's notifications to the CUCs. Each call hands one notification
/// over; it does not wait for a CUC, and it returns nothing.
pub trait NorthboundAdapterInterface {
    /// Whether a northbound in this state, handed `notification`, may be left as `after`. Of a
    /// northbound that says nothing of itself, everything may be.
    open spec fn takes(&self, notification: SentNotificationModel, after: &Self) -> bool {
        true
    }

    /// A computation has ended: `notification` says for each Stream whether it could be placed.
    fn compute_streams_completed(&mut self, notification: NotificationContent)
        ensures
            old(self).takes(
                SentNotificationModel::ComputeStreamsCompleted(notification.deep_view()),
                final(self),
            ),
    ;

    /// The network was configured: `notification` says for each Stream whether every port it
    /// relies on took its configuration.
    fn configure_streams_completed(&mut self, notification: NotificationContent)
        ensures
            old(self).takes(
                SentNotificationModel::ConfigureStreamsCompleted(notification.deep_view()),
                final(self),
            ),
    ;

    /// Streams were removed.
    fn remove_streams_completed(&mut self, notification: NotificationContent)
        ensures
            old(self).takes(
                SentNotificationModel::RemoveStreamsCompleted(notification.deep_view()),
                final(self),
            ),
    ;
}

/// What the CUCs can ask of the controller.
pub trait NorthboundControllerInterface {
    /// Asks for a computation. The answer says whether the request was taken, not how the
    /// computation ended.
    fn compute_streams(&mut self, computation: ComputationType) -> compute_streams::Output;

    /// Asks for the domain that a CUC belongs to.
    fn request_domain_id(&self, input: request_domain_id::Input) -> request_domain_id::Output;

    /// Asks for a Stream id that is not in use.
    fn request_free_stream_id(
        &self,
        input: request_free_stream_id::Input,
    ) -> request_free_stream_id::Output;

    /// Removes Streams of the CUC `cuc_id`.
    fn remove_streams(
        &mut self,
        cuc_id: &String,
        input: remove_streams::Input,
    ) -> remove_streams::Output;

    /// Creates or replaces Streams of the CUC `cuc_id`.
    fn set_streams(&mut self, cuc_id: &String, request: Vec<StreamRequest>);

    /// Everything the controller's own domain holds for the CUC `cuc_id`.
    fn get_streams(&self, cuc_id: &String) -> Domain;
}

/// A notification that was handed to a northbound.
#[derive(Debug)]
pub enum SentNotification {
    /// A computation has ended.
    ComputeStreamsCompleted(NotificationContent),
    /// A configuration has ended.
    ConfigureStreamsCompleted(NotificationContent),
    /// Streams were removed.
    RemoveStreamsCompleted(NotificationContent),
}

/// What a [`SentNotification`] holds, as a mathematical value.
pub enum SentNotificationModel {
    ComputeStreamsCompleted(Seq<notification_types::DomainModel>),
    ConfigureStreamsCompleted(Seq<notification_types::DomainModel>),
    RemoveStreamsCompleted(Seq<notification_types::DomainModel>),
}

impl DeepView for SentNotification {
    type V = SentNotificationModel;

    open spec fn deep_view(&self) -> SentNotificationModel {
        match self {
            SentNotification::ComputeStreamsCompleted(n) => {
                SentNotificationModel::ComputeStreamsCompleted(n.deep_view())
            },
            SentNotification::ConfigureStreamsCompleted(n) => {
                SentNotificationModel::ConfigureStreamsCompleted(n.deep_view())
            },
            SentNotification::RemoveStreamsCompleted(n) => {
                SentNotificationModel::RemoveStreamsCompleted(n.deep_view())
            },
        }
    }
}

/// What the interfaces of the example end stations can do, and what they ask of the network.
pub open spec fn example_capabilities() -> GroupInterfaceCapabilitiesModel {
    GroupInterfaceCapabilitiesModel {
        vlan_tag_capable: true,
        cb_stream_iden_type_list: Seq::empty(),
        cb_sequence_type_list: Seq::empty(),
    }
}

/// An example request: a Stream from the interface `talker_interface` of the station
/// `talker_mac` to the interface `listener_interface` of the station `listener_mac`. One frame
/// per millisecond, sent between 100 ns and 500 µs into the interval, with VLAN priority 6, to
/// be delivered within 100 µs.
pub open spec fn example_request(
    stream_id: Seq<char>,
    talker_mac: Seq<char>,
    talker_interface: Seq<char>,
    listener_mac: Seq<char>,
    listener_interface: Seq<char>,
) -> StreamRequestModel {
    StreamRequestModel {
        stream_id,
        talker: GroupTalkerModel {
            stream_rank: StreamRankContainer { rank: 1 },
            end_station_interfaces: seq![
                GroupInterfaceIdModel { mac_address: talker_mac, interface_name: talker_interface },
            ],
            data_frame_specification: seq![
                DataFrameSpecificationElementModel {
                    index: 0,
                    field: DataFrameSpecificationElementTypeModel::Ieee802MacAddresses(
                        GroupIeee802MacAddressModel {
                            destination_mac_adress: listener_mac,
                            source_mac_adress: talker_mac,
                        },
                    ),
                },
                DataFrameSpecificationElementModel {
                    index: 1,
                    field: DataFrameSpecificationElementTypeModel::Ieee802VlanTag(
                        GroupIeee802VlanTag { priority_code_point: 6, vlan_id: 0 },
                    ),
                },
            ],
            traffic_specification: TrafficSpecificationContainer {
                interval: TrafficSpecificationInterval {
                    numerator: 1000000,
                    denominator: 1000000000,
                },
                max_frames_per_interval: 1,
                max_frame_size: 1,
                transmission_selection: 0,
                time_aware: Some(
                    TimeAwareContainer {
                        earliest_transmit_offset: 100,
                        latest_transmit_offset: 500000,
                        jitter: 0,
                    },
                ),
            },
            user_to_network_requirements: GroupUserToNetworkRequirements {
                num_seemless_trees: 1,
                max_latency: 100000,
            },
            interface_capabilities: example_capabilities(),
        },
        listeners: seq![
            GroupListenerModel {
                index: 0,
                end_station_interfaces: seq![
                    GroupInterfaceIdModel {
                        mac_address: listener_mac,
                        interface_name: listener_interface,
                    },
                ],
                user_to_network_requirements: GroupUserToNetworkRequirements {
                    num_seemless_trees: 1,
                    max_latency: 100000,
                },
                interface_capabilities: example_capabilities(),
            },
        ],
    }
}

/// The three example requests: two Streams of the station 1, to the stations 2 and 3, and one
/// of the station 2 to the station 3.
pub open spec fn example_requests() -> Seq<StreamRequestModel> {
    seq![
        example_request(
            "00-00-00-00-00-01:00-01"@,
            "00-00-00-00-00-01"@,
            "eth0"@,
            "00-00-00-00-00-02"@,
            "eth1"@,
        ),
        example_request(
            "00-00-00-00-00-01:00-02"@,
            "00-00-00-00-00-01"@,
            "eth0"@,
            "00-00-00-00-00-03"@,
            "eth0"@,
        ),
        example_request(
            "00-00-00-00-00-02:00-03"@,
            "00-00-00-00-00-02"@,
            "eth1"@,
            "00-00-00-00-00-03"@,
            "eth0"@,
        ),
    ]
}

/// Builds the capabilities of an example interface.
fn new_example_capabilities() -> (r: GroupInterfaceCapabilities)
    ensures
        r.deep_view() == example_capabilities(),
{
    let r = GroupInterfaceCapabilities {
        vlan_tag_capable: true,
        cb_stream_iden_type_list: Vec::new(),
        cb_sequence_type_list: Vec::new(),
    };
    proof {
        assert(r.cb_stream_iden_type_list.deep_view() =~= Seq::<u32>::empty());
        assert(r.cb_sequence_type_list.deep_view() =~= Seq::<u32>::empty());
    }
    r
}

/// Builds an example request.
fn new_example_request(
    stream_id: &str,
    talker_mac: &str,
    talker_interface: &str,
    listener_mac: &str,
    listener_interface: &str,
) -> (r: StreamRequest)
    ensures
        r.deep_view() == example_request(
            stream_id@,
            talker_mac@,
            talker_interface@,
            listener_mac@,
            listener_interface@,
        ),
{
    let ghost m = example_request(
        stream_id@,
        talker_mac@,
        talker_interface@,
        listener_mac@,
        listener_interface@,
    );
    let mut talker_interfaces: Vec<GroupInterfaceId> = Vec::new();
    talker_interfaces.push(
        GroupInterfaceId {
            mac_address: String::from_str(talker_mac),
            interface_name: String::from_str(talker_interface),
        },
    );
    let mut data_frame_specification: Vec<DataFrameSpecificationElement> = Vec::new();
    data_frame_specification.push(
        DataFrameSpecificationElement {
            index: 0,
            field: DataFrameSpecificationElementType::Ieee802MacAddresses(
                GroupIeee802MacAddress {
                    destination_mac_adress: String::from_str(listener_mac),
                    source_mac_adress: String::from_str(talker_mac),
                },
            ),
        },
    );
    data_frame_specification.push(
        DataFrameSpecificationElement {
            index: 1,
            field: DataFrameSpecificationElementType::Ieee802VlanTag(
                GroupIeee802VlanTag { priority_code_point: 6, vlan_id: 0 },
            ),
        },
    );
    let talker = GroupTalker {
        stream_rank: StreamRankContainer { rank: 1 },
        end_station_interfaces: talker_interfaces,
        data_frame_specification,
        traffic_specification: TrafficSpecificationContainer {
            interval: TrafficSpecificationInterval { numerator: 1000000, denominator: 1000000000 },
            max_frames_per_interval: 1,
            max_frame_size: 1,
            transmission_selection: 0,
            time_aware: Some(
                TimeAwareContainer {
                    earliest_transmit_offset: 100,
                    latest_transmit_offset: 500000,
                    jitter: 0,
                },
            ),
        },
        user_to_network_requirements: GroupUserToNetworkRequirements {
            num_seemless_trees: 1,
            max_latency: 100000,
        },
        interface_capabilities: new_example_capabilities(),
    };
    proof {
        assert(talker.end_station_interfaces.deep_view() =~= m.talker.end_station_interfaces);
        assert(talker.data_frame_specification.deep_view() =~= m.talker.data_frame_specification);
    }
    let mut listener_interfaces: Vec<GroupInterfaceId> = Vec::new();
    listener_interfaces.push(
        GroupInterfaceId {
            mac_address: String::from_str(listener_mac),
            interface_name: String::from_str(listener_interface),
        },
    );
    let listener = GroupListener {
        index: 0,
        end_station_interfaces: listener_interfaces,
        user_to_network_requirements: GroupUserToNetworkRequirements {
            num_seemless_trees: 1,
            max_latency: 100000,
        },
        interface_capabilities: new_example_capabilities(),
    };
    proof {
        assert(listener.end_station_interfaces.deep_view()
            =~= m.listeners[0].end_station_interfaces);
    }
    let mut listeners: Vec<GroupListener> = Vec::new();
    listeners.push(listener);
    proof {
        assert(listeners.deep_view() =~= m.listeners);
    }
    StreamRequest { stream_id: String::from_str(stream_id), talker, listeners }
}

/// Builds the three example requests.
pub fn example_add_stream() -> (r: Vec<StreamRequest>)
    ensures
        r.deep_view() == example_requests(),
{
    let mut result: Vec<StreamRequest> = Vec::new();
    result.push(
        new_example_request(
            "00-00-00-00-00-01:00-01",
            "00-00-00-00-00-01",
            "eth0",
            "00-00-00-00-00-02",
            "eth1",
        ),
    );
    result.push(
        new_example_request(
            "00-00-00-00-00-01:00-02",
            "00-00-00-00-00-01",
            "eth0",
            "00-00-00-00-00-03",
            "eth0",
        ),
    );
    result.push(
        new_example_request(
            "00-00-00-00-00-02:00-03",
            "00-00-00-00-00-02",
            "eth1",
            "00-00-00-00-00-03",
            "eth0",
        ),
    );
    proof {
        assert(result.deep_view() =~= example_requests());
    }
    result
}

/// The request for the computation of every Stream of the CUC `cuc_id` of the domain
/// `domain_id`.
pub fn compute_all_of_cuc(domain_id: &String, cuc_id: &String) -> (r: ComputationType)
    ensures
        r.deep_view() == ComputationTypeModel::All(request_for_cuc(domain_id@, cuc_id@)),
{
    let mut cucs: Vec<compute_streams::CucElement> = Vec::new();
    cucs.push(compute_streams::CucElement { cuc_id: cuc_id.clone(), stream_list: None });
    let domain = compute_streams::Domain { domain_id: domain_id.clone(), cuc: cucs };
    proof {
        assert(domain.cuc.deep_view() =~= request_for_cuc(domain_id@, cuc_id@)[0].cuc);
    }
    let mut domains: Vec<compute_streams::Domain> = Vec::new();
    domains.push(domain);
    proof {
        assert(domains.deep_view() =~= request_for_cuc(domain_id@, cuc_id@));
    }
    ComputationType::All(domains)
}

/// A northbound for trials that sets the example Streams. It keeps the notifications it is handed.
pub struct MockInsertStreamAdapter {
    cuc_id: String,
    notifications: Vec<SentNotification>,
}

impl MockInsertStreamAdapter {
    /// The CUC in whose name the adapter acts.
    pub closed spec fn cuc(&self) -> Seq<char> {
        self.cuc_id@
    }

    /// The notifications that the adapter was handed, oldest first.
    pub closed spec fn received(&self) -> Seq<SentNotificationModel> {
        self.notifications.deep_view()
    }

    /// An adapter that acts in the name of the CUC `cuc_id` and was handed nothing yet.
    pub fn new(cuc_id: String) -> (r: Self)
        ensures
            r.cuc() == cuc_id@,
            r.received() == Seq::<SentNotificationModel>::empty(),
    {
        let r = MockInsertStreamAdapter { cuc_id, notifications: Vec::new() };
        proof {
            assert(r.notifications.deep_view() =~= Seq::<SentNotificationModel>::empty());
        }
        r
    }

    /// The CUC in whose name the adapter acts.
    pub fn cuc_id(&self) -> (r: &String)
        ensures
            r@ == self.cuc(),
    {
        &self.cuc_id
    }

    /// The notifications that the adapter was handed, oldest first.
    pub fn notifications(&self) -> (r: &Vec<SentNotification>)
        ensures
            r.deep_view() == self.received(),
    {
        &self.notifications
    }

    /// The three example requests.
    pub fn get_example_add_stream() -> (r: Vec<StreamRequest>)
        ensures
            r.deep_view() == example_requests(),
    {
        example_add_stream()
    }

    /// What the adapter asks of the controller `cnc` in the name of the CUC `cuc_id`: it sets
    /// the three example Streams, then stops the controller.
    pub fn run<
        N: NorthboundAdapterInterface,
        S: SouthboundAdapterInterface,
        St: StorageAdapterInterface,
        T: TopologyAdapterInterface,
        C: SchedulerAdapterInterface,
    >(cuc_id: &String, cnc: &mut Cnc<N, S, St, T, C>)
        ensures
            old(cnc).saved() ==> final(cnc).saved(),
            final(cnc).tree() == tree_with_streams(
                old(cnc).tree(),
                old(cnc).storage_domain(),
                cuc_id@,
                example_requests().map_values(stream_of_request()),
            ),
            final(cnc).configs() == old(cnc).configs(),
            !final(cnc).operating(),
    {
        cnc.set_streams(cuc_id, example_add_stream());
        cnc.set_operating(false);
    }
}

impl NorthboundAdapterInterface for MockInsertStreamAdapter {
    /// The adapter keeps the notification after those it was handed before.
    open spec fn takes(&self, notification: SentNotificationModel, after: &Self) -> bool {
        after.received() == self.received().push(notification) && after.cuc() == self.cuc()
    }

    /// Keeps the notification.
    fn compute_streams_completed(&mut self, notification: NotificationContent)
        ensures
            final(self).received() == old(self).received().push(
                SentNotificationModel::ComputeStreamsCompleted(notification.deep_view()),
            ),
            final(self).cuc() == old(self).cuc(),
    {
        let ghost before = self.notifications.deep_view();
        let ghost content = notification.deep_view();
        self.notifications.push(SentNotification::ComputeStreamsCompleted(notification));
        proof {
            assert(self.notifications.deep_view() =~= before.push(
                SentNotificationModel::ComputeStreamsCompleted(content),
            ));
        }
    }

    /// Keeps the notification.
    fn configure_streams_completed(&mut self, notification: NotificationContent)
        ensures
            final(self).received() == old(self).received().push(
                SentNotificationModel::ConfigureStreamsCompleted(notification.deep_view()),
            ),
            final(self).cuc() == old(self).cuc(),
    {
        let ghost before = self.notifications.deep_view();
        let ghost content = notification.deep_view();
        self.notifications.push(SentNotification::ConfigureStreamsCompleted(notification));
        proof {
            assert(self.notifications.deep_view() =~= before.push(
                SentNotificationModel::ConfigureStreamsCompleted(content),
            ));
        }
    }

    /// Keeps the notification.
    fn remove_streams_completed(&mut self, notification: NotificationContent)
        ensures
            final(self).received() == old(self).received().push(
                SentNotificationModel::RemoveStreamsCompleted(notification.deep_view()),
            ),
            final(self).cuc() == old(self).cuc(),
    {
        let ghost before = self.notifications.deep_view();
        let ghost content = notification.deep_view();
        self.notifications.push(SentNotification::RemoveStreamsCompleted(notification));
        proof {
            assert(self.notifications.deep_view() =~= before.push(
                SentNotificationModel::RemoveStreamsCompleted(content),
            ));
        }
    }
}

/// A northbound for trials that removes an example Stream. It keeps the notifications it is
/// handed.
pub struct MockRemoveStreamAdapter {
    cuc_id: String,
    notifications: Vec<SentNotification>,
}

impl MockRemoveStreamAdapter {
    /// The CUC in whose name the adapter acts.
    pub closed spec fn cuc(&self) -> Seq<char> {
        self.cuc_id@
    }

    /// The notifications that the adapter was handed, oldest first.
    pub closed spec fn received(&self) -> Seq<SentNotificationModel> {
        self.notifications.deep_view()
    }

    /// An adapter that acts in the name of the CUC `cuc_id` and was handed nothing yet.
    pub fn new(cuc_id: String) -> (r: Self)
        ensures
            r.cuc() == cuc_id@,
            r.received() == Seq::<SentNotificationModel>::empty(),
    {
        let r = MockRemoveStreamAdapter { cuc_id, notifications: Vec::new() };
        proof {
            assert(r.notifications.deep_view() =~= Seq::<SentNotificationModel>::empty());
        }
        r
    }

    /// The CUC in whose name the adapter acts.
    pub fn cuc_id(&self) -> (r: &String)
        ensures
            r@ == self.cuc(),
    {
        &self.cuc_id
    }

    /// The notifications that the adapter was handed, oldest first.
    pub fn notifications(&self) -> (r: &Vec<SentNotification>)
        ensures
            r.deep_view() == self.received(),
    {
        &self.notifications
    }

    /// What the adapter asks of the controller `cnc` in the name of the CUC `cuc_id`: it
    /// removes the first example Stream, then stops the controller. It hands back the
    /// controller's answer.
    pub fn run<
        N: NorthboundAdapterInterface,
        S: SouthboundAdapterInterface,
        St: StorageAdapterInterface,
        T: TopologyAdapterInterface,
        C: SchedulerAdapterInterface,
    >(cuc_id: &String, cnc: &mut Cnc<N, S, St, T, C>) -> (r: String)
        ensures
            old(cnc).saved() ==> final(cnc).saved(),
            r@ == "Success"@,
            final(cnc).tree() == tree_without_listed(
                old(cnc).tree(),
                old(cnc).storage_domain(),
                cuc_id@,
                seq!["00-00-00-00-00-01:00-01"@],
            ),
            final(cnc).configs() == old(cnc).configs(),
            !final(cnc).operating(),
    {
        let mut ids: Vec<String> = Vec::new();
        ids.push(String::from_str("00-00-00-00-00-01:00-01"));
        proof {
            assert(ids.deep_view() =~= seq!["00-00-00-00-00-01:00-01"@]);
        }
        let r = cnc.remove_streams(cuc_id, ids);
        cnc.set_operating(false);
        r
    }
}

impl NorthboundAdapterInterface for MockRemoveStreamAdapter {
    /// The adapter keeps the notification after those it was handed before.
    open spec fn takes(&self, notification: SentNotificationModel, after: &Self) -> bool {
        after.received() == self.received().push(notification) && after.cuc() == self.cuc()
    }

    /// Keeps the notification.
    fn compute_streams_completed(&mut self, notification: NotificationContent)
        ensures
            final(self).received() == old(self).received().push(
                SentNotificationModel::ComputeStreamsCompleted(notification.deep_view()),
            ),
            final(self).cuc() == old(self).cuc(),
    {
        let ghost before = self.notifications.deep_view();
        let ghost content = notification.deep_view();
        self.notifications.push(SentNotification::ComputeStreamsCompleted(notification));
        proof {
            assert(self.notifications.deep_view() =~= before.push(
                SentNotificationModel::ComputeStreamsCompleted(content),
            ));
        }
    }

    /// Keeps the notification.
    fn configure_streams_completed(&mut self, notification: NotificationContent)
        ensures
            final(self).received() == old(self).received().push(
                SentNotificationModel::ConfigureStreamsCompleted(notification.deep_view()),
            ),
            final(self).cuc() == old(self).cuc(),
    {
        let ghost before = self.notifications.deep_view();
        let ghost content = notification.deep_view();
        self.notifications.push(SentNotification::ConfigureStreamsCompleted(notification));
        proof {
            assert(self.notifications.deep_view() =~= before.push(
                SentNotificationModel::ConfigureStreamsCompleted(content),
            ));
        }
    }

    /// Keeps the notification.
    fn remove_streams_completed(&mut self, notification: NotificationContent)
        ensures
            final(self).received() == old(self).received().push(
                SentNotificationModel::RemoveStreamsCompleted(notification.deep_view()),
            ),
            final(self).cuc() == old(self).cuc(),
    {
        let ghost before = self.notifications.deep_view();
        let ghost content = notification.deep_view();
        self.notifications.push(SentNotification::RemoveStreamsCompleted(notification));
        proof {
            assert(self.notifications.deep_view() =~= before.push(
                SentNotificationModel::RemoveStreamsCompleted(content),
            ));
        }
    }
}

/// A northbound for trials that asks for a computation. It keeps the notifications it is
/// handed.
pub struct MockComputeStreamAdapter {
    cuc_id: String,
    notifications: Vec<SentNotification>,
}

impl MockComputeStreamAdapter {
    /// The CUC in whose name the adapter acts.
    pub closed spec fn cuc(&self) -> Seq<char> {
        self.cuc_id@
    }

    /// The notifications that the adapter was handed, oldest first.
    pub closed spec fn received(&self) -> Seq<SentNotificationModel> {
        self.notifications.deep_view()
    }

    /// An adapter that acts in the name of the CUC `cuc_id` and was handed nothing yet.
    pub fn new(cuc_id: String) -> (r: Self)
        ensures
            r.cuc() == cuc_id@,
            r.received() == Seq::<SentNotificationModel>::empty(),
    {
        let r = MockComputeStreamAdapter { cuc_id, notifications: Vec::new() };
        proof {
            assert(r.notifications.deep_view() =~= Seq::<SentNotificationModel>::empty());
        }
        r
    }

    /// The CUC in whose name the adapter acts.
    pub fn cuc_id(&self) -> (r: &String)
        ensures
            r@ == self.cuc(),
    {
        &self.cuc_id
    }

    /// The notifications that the adapter was handed, oldest first.
    pub fn notifications(&self) -> (r: &Vec<SentNotification>)
        ensures
            r.deep_view() == self.received(),
    {
        &self.notifications
    }

    /// What the adapter asks of the controller `cnc` in the name of the CUC `cuc_id`: it asks
    /// for the computation of every Stream of the CUC, lets the controller carry out what
    /// waits, and stops it. It hands back the controller's answer to the request and the
    /// records of the computations that were carried out, the one it asked for last.
    pub fn run<
        N: NorthboundAdapterInterface,
        S: SouthboundAdapterInterface,
        St: StorageAdapterInterface,
        T: TopologyAdapterInterface,
        C: SchedulerAdapterInterface,
    >(cuc_id: &String, cnc: &mut Cnc<N, S, St, T, C>) -> (r: (String, Vec<ComputationRecord>))
        ensures
            old(cnc).saved() ==> final(cnc).saved(),
            old(cnc).operating() ==> r.0@ == "Success"@ && final(cnc).pending().len() == 0,
            old(cnc).operating() ==> records_fit(
                old(cnc).tree(),
                old(cnc).pending().push(
                    ComputationTypeModel::All(request_for_cuc(old(cnc).storage_domain(), cuc_id@)),
                ),
                r.1.deep_view(),
            ),
            old(cnc).operating() ==> exists|done: Cnc<N, S, St, T, C>|
                #[trigger] old(cnc).carried_out_all(
                    old(cnc).pending().push(
                        ComputationTypeModel::All(
                            request_for_cuc(old(cnc).storage_domain(), cuc_id@),
                        ),
                    ),
                    r.1.deep_view(),
                    &done,
                ) && done.at_rest(final(cnc)),
            !old(cnc).operating() ==> r.0@ == "sending on a closed channel"@ && r.1.len() == 0
                && final(cnc).pending() == old(cnc).pending() && old(cnc).at_rest(final(cnc)),
            final(cnc).tree() == tree_after(old(cnc).tree(), r.1.deep_view()),
            final(cnc).configs() == configs_after(old(cnc).configs(), r.1.deep_view()),
            tree_well_formed(old(cnc).tree()) ==> tree_well_formed(final(cnc).tree()),
            !final(cnc).operating(),
    {
        let request = compute_all_of_cuc(cnc.domain(), cuc_id);
        let answer = cnc.compute_streams(request);
        let ghost queued = *cnc;
        let records = cnc.run();
        let ghost done = *cnc;
        cnc.set_operating(false);
        proof {
            if old(cnc).operating() {
                Cnc::lemma_carried_out_from_rest(
                    old(cnc),
                    &queued,
                    queued.pending(),
                    records.deep_view(),
                    &done,
                );
            }
        }
        (answer, records)
    }
}

impl NorthboundAdapterInterface for MockComputeStreamAdapter {
    /// The adapter keeps the notification after those it was handed before.
    open spec fn takes(&self, notification: SentNotificationModel, after: &Self) -> bool {
        after.received() == self.received().push(notification) && after.cuc() == self.cuc()
    }

    /// Keeps the notification.
    fn compute_streams_completed(&mut self, notification: NotificationContent)
        ensures
            final(self).received() == old(self).received().push(
                SentNotificationModel::ComputeStreamsCompleted(notification.deep_view()),
            ),
            final(self).cuc() == old(self).cuc(),
    {
        let ghost before = self.notifications.deep_view();
        let ghost content = notification.deep_view();
        self.notifications.push(SentNotification::ComputeStreamsCompleted(notification));
        proof {
            assert(self.notifications.deep_view() =~= before.push(
                SentNotificationModel::ComputeStreamsCompleted(content),
            ));
        }
    }

    /// Keeps the notification.
    fn configure_streams_completed(&mut self, notification: NotificationContent)
        ensures
            final(self).received() == old(self).received().push(
                SentNotificationModel::ConfigureStreamsCompleted(notification.deep_view()),
            ),
            final(self).cuc() == old(self).cuc(),
    {
        let ghost before = self.notifications.deep_view();
        let ghost content = notification.deep_view();
        self.notifications.push(SentNotification::ConfigureStreamsCompleted(notification));
        proof {
            assert(self.notifications.deep_view() =~= before.push(
                SentNotificationModel::ConfigureStreamsCompleted(content),
            ));
        }
    }

    /// Keeps the notification.
    fn remove_streams_completed(&mut self, notification: NotificationContent)
        ensures
            final(self).received() == old(self).received().push(
                SentNotificationModel::RemoveStreamsCompleted(notification.deep_view()),
            ),
            final(self).cuc() == old(self).cuc(),
    {
        let ghost before = self.notifications.deep_view();
        let ghost content = notification.deep_view();
        self.notifications.push(SentNotification::RemoveStreamsCompleted(notification));
        proof {
            assert(self.notifications.deep_view() =~= before.push(
                SentNotificationModel::RemoveStreamsCompleted(content),
            ));
        }
    }
}

/// A northbound for trials that asks for the Streams of its CUC. It keeps the notifications it
/// is handed.
pub struct MockGetStreamAdapter {
    cuc_id: String,
    notifications: Vec<SentNotification>,
}

impl MockGetStreamAdapter {
    /// The CUC in whose name the adapter acts.
    pub closed spec fn cuc(&self) -> Seq<char> {
        self.cuc_id@
    }

    /// The notifications that the adapter was handed, oldest first.
    pub closed spec fn received(&self) -> Seq<SentNotificationModel> {
        self.notifications.deep_view()
    }

    /// An adapter that acts in the name of the CUC `cuc_id` and was handed nothing yet.
    pub fn new(cuc_id: String) -> (r: Self)
        ensures
            r.cuc() == cuc_id@,
            r.received() == Seq::<SentNotificationModel>::empty(),
    {
        let r = MockGetStreamAdapter { cuc_id, notifications: Vec::new() };
        proof {
            assert(r.notifications.deep_view() =~= Seq::<SentNotificationModel>::empty());
        }
        r
    }

    /// The CUC in whose name the adapter acts.
    pub fn cuc_id(&self) -> (r: &String)
        ensures
            r@ == self.cuc(),
    {
        &self.cuc_id
    }

    /// The notifications that the adapter was handed, oldest first.
    pub fn notifications(&self) -> (r: &Vec<SentNotification>)
        ensures
            r.deep_view() == self.received(),
    {
        &self.notifications
    }

    /// What the adapter asks of the controller `cnc` in the name of the CUC `cuc_id`: it asks
    /// for the Streams of the CUC, then stops the controller. It hands back the controller's
    /// answer.
    pub fn run<
        N: NorthboundAdapterInterface,
        S: SouthboundAdapterInterface,
        St: StorageAdapterInterface,
        T: TopologyAdapterInterface,
        C: SchedulerAdapterInterface,
    >(cuc_id: &String, cnc: &mut Cnc<N, S, St, T, C>) -> (r: Domain)
        ensures
            old(cnc).saved() ==> final(cnc).saved(),
            r.deep_view() == streams_of_cuc(old(cnc).tree(), old(cnc).storage_domain(), cuc_id@),
            final(cnc).tree() == old(cnc).tree(),
            final(cnc).configs() == old(cnc).configs(),
            !final(cnc).operating(),
    {
        let r = cnc.get_streams(cuc_id);
        cnc.set_operating(false);
        r
    }
}

impl NorthboundAdapterInterface for MockGetStreamAdapter {
    /// The adapter keeps the notification after those it was handed before.
    open spec fn takes(&self, notification: SentNotificationModel, after: &Self) -> bool {
        after.received() == self.received().push(notification) && after.cuc() == self.cuc()
    }

    /// Keeps the notification.
    fn compute_streams_completed(&mut self, notification: NotificationContent)
        ensures
            final(self).received() == old(self).received().push(
                SentNotificationModel::ComputeStreamsCompleted(notification.deep_view()),
            ),
            final(self).cuc() == old(self).cuc(),
    {
        let ghost before = self.notifications.deep_view();
        let ghost content = notification.deep_view();
        self.notifications.push(SentNotification::ComputeStreamsCompleted(notification));
        proof {
            assert(self.notifications.deep_view() =~= before.push(
                SentNotificationModel::ComputeStreamsCompleted(content),
            ));
        }
    }

    /// Keeps the notification.
    fn configure_streams_completed(&mut self, notification: NotificationContent)
        ensures
            final(self).received() == old(self).received().push(
                SentNotificationModel::ConfigureStreamsCompleted(notification.deep_view()),
            ),
            final(self).cuc() == old(self).cuc(),
    {
        let ghost before = self.notifications.deep_view();
        let ghost content = notification.deep_view();
        self.notifications.push(SentNotification::ConfigureStreamsCompleted(notification));
        proof {
            assert(self.notifications.deep_view() =~= before.push(
                SentNotificationModel::ConfigureStreamsCompleted(content),
            ));
        }
    }

    /// Keeps the notification.
    fn remove_streams_completed(&mut self, notification: NotificationContent)
        ensures
            final(self).received() == old(self).received().push(
                SentNotificationModel::RemoveStreamsCompleted(notification.deep_view()),
            ),
            final(self).cuc() == old(self).cuc(),
    {
        let ghost before = self.notifications.deep_view();
        let ghost content = notification.deep_view();
        self.notifications.push(SentNotification::RemoveStreamsCompleted(notification));
        proof {
            assert(self.notifications.deep_view() =~= before.push(
                SentNotificationModel::RemoveStreamsCompleted(content),
            ));
        }
    }
}

/// A northbound for trials that sets the example Streams and asks for their computation, round
/// after round. It keeps the notifications it is handed.
pub struct MockUniAdapter {
    cuc_id: String,
    notifications: Vec<SentNotification>,
}

impl MockUniAdapter {
    /// The CUC in whose name the adapter acts.
    pub closed spec fn cuc(&self) -> Seq<char> {
        self.cuc_id@
    }

    /// The notifications that the adapter was handed, oldest first.
    pub closed spec fn received(&self) -> Seq<SentNotificationModel> {
        self.notifications.deep_view()
    }

    /// An adapter that acts in the name of the CUC `cuc_id` and was handed nothing yet.
    pub fn new(cuc_id: String) -> (r: Self)
        ensures
            r.cuc() == cuc_id@,
            r.received() == Seq::<SentNotificationModel>::empty(),
    {
        let r = MockUniAdapter { cuc_id, notifications: Vec::new() };
        proof {
            assert(r.notifications.deep_view() =~= Seq::<SentNotificationModel>::empty());
        }
        r
    }

    /// The CUC in whose name the adapter acts.
    pub fn cuc_id(&self) -> (r: &String)
        ensures
            r@ == self.cuc(),
    {
        &self.cuc_id
    }

    /// The notifications that the adapter was handed, oldest first.
    pub fn notifications(&self) -> (r: &Vec<SentNotification>)
        ensures
            r.deep_view() == self.received(),
    {
        &self.notifications
    }

    /// The three example requests.
    pub fn get_example_add_stream() -> (r: Vec<StreamRequest>)
        ensures
            r.deep_view() == example_requests(),
    {
        example_add_stream()
    }

    /// One round of what the adapter asks of the controller `cnc` in the name of the CUC
    /// `cuc_id`: it sets the three example Streams and asks for the computation of every
    /// Stream of the CUC. It hands back the controller's answer to the request.
    pub fn run<
        N: NorthboundAdapterInterface,
        S: SouthboundAdapterInterface,
        St: StorageAdapterInterface,
        T: TopologyAdapterInterface,
        C: SchedulerAdapterInterface,
    >(cuc_id: &String, cnc: &mut Cnc<N, S, St, T, C>) -> (r: String)
        ensures
            old(cnc).saved() ==> final(cnc).saved(),
            final(cnc).tree() == tree_with_streams(
                old(cnc).tree(),
                old(cnc).storage_domain(),
                cuc_id@,
                example_requests().map_values(stream_of_request()),
            ),
            final(cnc).configs() == old(cnc).configs(),
            final(cnc).operating() == old(cnc).operating(),
            old(cnc).operating() ==> r@ == "Success"@ && final(cnc).pending() == old(
                cnc).pending().push(
                ComputationTypeModel::All(request_for_cuc(old(cnc).storage_domain(), cuc_id@)),
            ),
    {
        cnc.set_streams(cuc_id, example_add_stream());
        let request = compute_all_of_cuc(cnc.domain(), cuc_id);
        cnc.compute_streams(request)
    }
}

impl NorthboundAdapterInterface for MockUniAdapter {
    /// The adapter keeps the notification after those it was handed before.
    open spec fn takes(&self, notification: SentNotificationModel, after: &Self) -> bool {
        after.received() == self.received().push(notification) && after.cuc() == self.cuc()
    }

    /// Keeps the notification.
    fn compute_streams_completed(&mut self, notification: NotificationContent)
        ensures
            final(self).received() == old(self).received().push(
                SentNotificationModel::ComputeStreamsCompleted(notification.deep_view()),
            ),
            final(self).cuc() == old(self).cuc(),
    {
        let ghost before = self.notifications.deep_view();
        let ghost content = notification.deep_view();
        self.notifications.push(SentNotification::ComputeStreamsCompleted(notification));
        proof {
            assert(self.notifications.deep_view() =~= before.push(
                SentNotificationModel::ComputeStreamsCompleted(content),
            ));
        }
    }

    /// Keeps the notification.
    fn configure_streams_completed(&mut self, notification: NotificationContent)
        ensures
            final(self).received() == old(self).received().push(
                SentNotificationModel::ConfigureStreamsCompleted(notification.deep_view()),
            ),
            final(self).cuc() == old(self).cuc(),
    {
        let ghost before = self.notifications.deep_view();
        let ghost content = notification.deep_view();
        self.notifications.push(SentNotification::ConfigureStreamsCompleted(notification));
        proof {
            assert(self.notifications.deep_view() =~= before.push(
                SentNotificationModel::ConfigureStreamsCompleted(content),
            ));
        }
    }

    /// Keeps the notification.
    fn remove_streams_completed(&mut self, notification: NotificationContent)
        ensures
            final(self).received() == old(self).received().push(
                SentNotificationModel::RemoveStreamsCompleted(notification.deep_view()),
            ),
            final(self).cuc() == old(self).cuc(),
    {
        let ghost before = self.notifications.deep_view();
        let ghost content = notification.deep_view();
        self.notifications.push(SentNotification::RemoveStreamsCompleted(notification));
        proof {
            assert(self.notifications.deep_view() =~= before.push(
                SentNotificationModel::RemoveStreamsCompleted(content),
            ));
        }
    }
}

} // verus!
