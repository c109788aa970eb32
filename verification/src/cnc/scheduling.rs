//! The scheduler: what computes gate control lists for Streams.

use crate::cnc::types::sched_types::{
    ConfigurableGateParameterTableEntry, ConfigurableGateParameterTableEntryModel,
    GateControlEntry, GateControlOperation,
};
use crate::cnc::types::scheduling::{
    Config, ConfigModel, PortConfiguration, PortConfigurationModel, Schedule, ScheduleModel,
};
use crate::cnc::types::topology::{NodeInformationModel, Topology, TopologyModel};
use crate::cnc::types::tsn_types::{
    ConfigListElement, ConfigListElementModel, ConfigValue, ConfigValueModel,
    DataFrameSpecificationElement, DataFrameSpecificationElementModel,
    DataFrameSpecificationElementType, DataFrameSpecificationElementTypeModel,
    GroupInterfaceConfiguration, GroupInterfaceConfigurationModel, GroupInterfaceId,
    GroupInterfaceIdModel, GroupStatusTalkerListener, GroupStatusTalkerListenerModel,
    InterfaceListElement, InterfaceListElementModel,
};
use crate::cnc::types::uni_types::{
    Cuc, CucModel, Domain, DomainModel, Listener, ListenerModel, Stream, StreamModel, Talker,
    TalkerModel,
};
use crate::cnc::types::{ComputationResult, ComputationResultModel, FailedStreamModel};
use vstd::prelude::*;
use vstd::string::*;

verus! {

/// A scheduling strategy.
///
/// The controller takes what a scheduler returns as it is: it does not check that its gate
/// control lists can be met, nor that the Streams handed back are the ones handed in.
pub trait SchedulerAdapterInterface {
    /// Whether the scheduler may answer `result` when it is asked for the Streams of `domains`
    /// in the network `topology`. Of a scheduler that says nothing of itself, every answer may
    /// come.
    open spec fn may_answer(
        &self,
        topology: TopologyModel,
        domains: Seq<DomainModel>,
        result: ComputationResultModel,
    ) -> bool {
        true
    }

    /// Computes a schedule for the Streams of `domains` in the network `topology`. This may take
    /// long. The result holds a copy of `domains` in which each Talker and Listener carries
    /// what was decided for it, and names exactly the Streams that could not be placed.
    fn compute_schedule(&self, topology: &Topology, domains: &Vec<Domain>) -> (r:
        ComputationResult)
        ensures
            self.may_answer(topology.deep_view(), domains.deep_view(), r.deep_view()),
    ;
}

/// The latency that the mock scheduler gives every Talker and Listener, in nanoseconds.
pub const MOCK_LATENCY: u32 = 50000;

/// The entry of an interface's configuration list that stands for a field of the data-frame
/// specification: the same index, the same value.
pub open spec fn config_of_field(
) -> spec_fn(DataFrameSpecificationElementModel) -> ConfigListElementModel {
    |e: DataFrameSpecificationElementModel|
        ConfigListElementModel {
            index: e.index,
            config_value: match e.field {
                DataFrameSpecificationElementTypeModel::Ieee802MacAddresses(x) => {
                    ConfigValueModel::Ieee802MacAddresses(x)
                },
                DataFrameSpecificationElementTypeModel::Ieee802VlanTag(x) => {
                    ConfigValueModel::Ieee802VlanTag(x)
                },
                DataFrameSpecificationElementTypeModel::Ipv4Tuple(x) => {
                    ConfigValueModel::Ipv4Tuple(x)
                },
                DataFrameSpecificationElementTypeModel::Ipv6Tuple(x) => {
                    ConfigValueModel::Ipv6Tuple(x)
                },
            },
        }
}

/// The configuration list that the mock scheduler derives for a Stream: one entry for each
/// field of the Talker's data-frame specification, in their order.
pub open spec fn mock_config_list(s: StreamModel) -> Seq<ConfigListElementModel> {
    s.talker.group_talker.data_frame_specification.map_values(config_of_field())
}

/// What the mock scheduler decides for a Talker or Listener with the interfaces
/// `interfaces`: the mock latency, and the configuration list `config_list` for its first
/// interface. One without an interface gets no interface configuration.
pub open spec fn mock_decision(
    interfaces: Seq<GroupInterfaceIdModel>,
    config_list: Seq<ConfigListElementModel>,
) -> GroupStatusTalkerListenerModel {
    GroupStatusTalkerListenerModel {
        accumulated_latency: MOCK_LATENCY,
        interface_configuration: GroupInterfaceConfigurationModel {
            interface_list: if interfaces.len() > 0 {
                seq![InterfaceListElementModel { config_list, group_interface_id: interfaces[0] }]
            } else {
                Seq::empty()
            },
        },
    }
}

/// A Listener as the mock scheduler hands it back.
pub open spec fn mock_listener(config_list: Seq<ConfigListElementModel>) -> spec_fn(
    ListenerModel,
) -> ListenerModel {
    |l: ListenerModel|
        ListenerModel {
            group_status_talker_listener: mock_decision(
                l.group_listener.end_station_interfaces,
                config_list,
            ),
            ..l
        }
}

/// A Stream as the mock scheduler hands it back: its Talker and every Listener carry the mock
/// decision, with the same configuration list.
pub open spec fn mock_stream() -> spec_fn(StreamModel) -> StreamModel {
    |s: StreamModel|
        StreamModel {
            talker: TalkerModel {
                group_status_talker_listener: mock_decision(
                    s.talker.group_talker.end_station_interfaces,
                    mock_config_list(s),
                ),
                ..s.talker
            },
            listener: s.listener.map_values(mock_listener(mock_config_list(s))),
            ..s
        }
}

/// A CUC as the mock scheduler hands it back.
pub open spec fn mock_cuc() -> spec_fn(CucModel) -> CucModel {
    |c: CucModel| CucModel { stream: c.stream.map_values(mock_stream()), ..c }
}

/// A domain as the mock scheduler hands it back.
pub open spec fn mock_domain() -> spec_fn(DomainModel) -> DomainModel {
    |d: DomainModel| DomainModel { cuc: d.cuc.map_values(mock_cuc()), ..d }
}

/// The configuration that the mock scheduler writes to a port: gates enabled and open for
/// every traffic class, one control list entry that keeps them open for `interval`
/// nanoseconds, and a cycle of that length that starts at time zero.
pub open spec fn mock_config(
    node_id: u32,
    name: Seq<char>,
    mac_address: Seq<char>,
    interval: u32,
    affected_streams: Seq<Seq<char>>,
) -> ConfigModel {
    ConfigModel {
        port: PortConfigurationModel {
            name,
            mac_address,
            config: ConfigurableGateParameterTableEntryModel {
                gate_enable: true,
                admin_gate_states: 255,
                admin_control_list: seq![
                    GateControlEntry {
                        operation_name: GateControlOperation::SetGateStates,
                        time_interval_value: interval,
                        gate_state_value: 255,
                    },
                ],
                admin_cycle_time: (interval as i32, 1000000000),
                admin_cycle_time_extension: 0,
                admin_base_time: (0, 0),
                config_change: true,
            },
        },
        node_id,
        affected_streams,
    }
}

/// What the mock scheduler writes to the Bridge 1.
pub open spec fn mock_configs_of_bridge_1() -> Seq<ConfigModel> {
    seq![
        mock_config(
            1,
            "sw0p2"@,
            "00-60-65-82-c9-5b"@,
            320000,
            seq!["00-00-00-00-00-01:00-01"@, "00-00-00-00-00-01:00-02"@],
        ),
        mock_config(
            1,
            "sw0p3"@,
            "00-60-65-82-c9-5c"@,
            320000,
            seq!["00-00-00-00-00-01:00-01"@, "00-00-00-00-00-02:00-03"@],
        ),
        mock_config(
            1,
            "sw0p4"@,
            "00-60-65-82-c9-5d"@,
            640000,
            seq!["00-00-00-00-00-01:00-02"@, "00-00-00-00-00-02:00-03"@],
        ),
    ]
}

/// What the mock scheduler writes to the Bridge 2.
pub open spec fn mock_configs_of_bridge_2() -> Seq<ConfigModel> {
    seq![
        mock_config(
            2,
            "sw0p2"@,
            "00-10-02-00-02-02"@,
            320000,
            seq!["00-00-00-00-00-01:00-02"@, "00-00-00-00-00-02:00-03"@],
        ),
        mock_config(
            2,
            "sw0p3"@,
            "00-10-02-00-02-03"@,
            320000,
            seq!["00-00-00-00-00-01:00-02"@, "00-00-00-00-00-02:00-03"@],
        ),
    ]
}

/// The schedule of the mock scheduler for a network with the Bridges `bridges`: the
/// configurations of the Bridge 1 if it is among them, then those of the Bridge 2 if it is.
pub open spec fn mock_schedule(bridges: Seq<u32>) -> ScheduleModel {
    ScheduleModel {
        configs: (if bridges.contains(1u32) {
            mock_configs_of_bridge_1()
        } else {
            Seq::empty()
        }) + (if bridges.contains(2u32) {
            mock_configs_of_bridge_2()
        } else {
            Seq::empty()
        }),
    }
}

/// Whether a station is a Bridge, by the convention for node ids: below 10.
pub open spec fn is_bridge() -> spec_fn(NodeInformationModel) -> bool {
    |n: NodeInformationModel| n.id < 10
}

/// The ids of the Bridges of a topology, in the order of its stations.
pub open spec fn bridges_of(topology: TopologyModel) -> Seq<u32> {
    topology.nodes.filter(is_bridge()).map_values(|n: NodeInformationModel| n.id)
}

/// What the mock scheduler returns.
pub open spec fn mock_result(
    topology: TopologyModel,
    domains: Seq<DomainModel>,
) -> ComputationResultModel {
    ComputationResultModel {
        schedule: mock_schedule(bridges_of(topology)),
        domains: domains.map_values(mock_domain()),
        failed_streams: Seq::empty(),
    }
}

/// What the mock scheduler hands back meets what the store expects of a scheduler: a Talker
/// with an interface has exactly one interface configuration, and every Listener with an
/// interface has exactly one with the same configuration list.
pub proof fn lemma_mock_listeners_mirror_talker(s: StreamModel, l: int)
    requires
        s.talker.group_talker.end_station_interfaces.len() > 0,
        0 <= l < s.listener.len(),
        s.listener[l].group_listener.end_station_interfaces.len() > 0,
    ensures
        ({
            let after = mock_stream()(s);
            let talker = after.talker.group_status_talker_listener.interface_configuration.interface_list;
            let listener =
                after.listener[l].group_status_talker_listener.interface_configuration.interface_list;
            &&& talker.len() == 1
            &&& listener.len() == 1
            &&& listener[0].config_list == talker[0].config_list
            &&& after.talker.group_status_talker_listener.accumulated_latency == MOCK_LATENCY
            &&& after.listener[l].group_status_talker_listener.accumulated_latency == MOCK_LATENCY
        }),
{
}

/// Says whether `id` is among `ids`.
fn contains_node(ids: &Vec<u32>, id: u32) -> (r: bool)
    ensures
        r == ids@.contains(id),
{
    let mut i: usize = 0;
    while i < ids.len()
        invariant
            i <= ids.len(),
            forall|j: int| 0 <= j < i ==> ids@[j] != id,
        decreases ids.len() - i,
    {
        if ids[i] == id {
            return true;
        }
        i += 1;
    }
    false
}

/// Builds the configuration that the mock scheduler writes to a port.
fn new_mock_config(
    node_id: u32,
    name: &str,
    mac_address: &str,
    interval: u32,
    first: &str,
    second: &str,
) -> (r: Config)
    requires
        interval <= i32::MAX,
    ensures
        r.deep_view() == mock_config(node_id, name@, mac_address@, interval, seq![first@, second@]),
{
    let mut admin_control_list: Vec<GateControlEntry> = Vec::new();
    admin_control_list.push(
        GateControlEntry {
            operation_name: GateControlOperation::SetGateStates,
            time_interval_value: interval,
            gate_state_value: 255,
        },
    );
    let mut affected_streams: Vec<String> = Vec::new();
    affected_streams.push(String::from_str(first));
    affected_streams.push(String::from_str(second));
    let r = Config {
        port: PortConfiguration {
            name: String::from_str(name),
            mac_address: String::from_str(mac_address),
            config: ConfigurableGateParameterTableEntry {
                gate_enable: true,
                admin_gate_states: 255,
                admin_control_list,
                admin_cycle_time: (interval as i32, 1000000000),
                admin_cycle_time_extension: 0,
                admin_base_time: (0, 0),
                config_change: true,
            },
        },
        node_id,
        affected_streams,
    };
    proof {
        let m = mock_config(node_id, name@, mac_address@, interval, seq![first@, second@]);
        assert(r.affected_streams.deep_view() =~= m.affected_streams);
        assert(r.port.config.admin_control_list.deep_view() =~= m.port.config.admin_control_list);
    }
    r
}

/// A scheduler that computes nothing: it hands every Stream back with a fixed latency and
/// writes fixed gate control lists to the Bridges 1 and 2.
pub struct MockTSNScheduler {}

impl MockTSNScheduler {
    /// The mock scheduler.
    pub fn new() -> Self {
        MockTSNScheduler {  }
    }

    /// Hands `domains` back with the mock decision for every Talker and Listener, and the mock
    /// schedule for the Bridges of `topology`. No Stream fails.
    pub fn compute_fake(&self, topology: &Topology, domains: &Vec<Domain>) -> (r: ComputationResult)
        ensures
            r.deep_view() == mock_result(topology.deep_view(), domains.deep_view()),
    {
        let mut decided = domains.clone();
        proof {
            assert(decided.deep_view() =~= domains.deep_view());
        }
        decide_domains(&mut decided);

        let ghost nodes = topology.deep_view().nodes;
        let ghost id_of = |n: NodeInformationModel| n.id;
        let mut bridges: Vec<u32> = Vec::new();
        let mut i: usize = 0;
        proof {
            reveal(Seq::filter);
            assert(nodes.take(0).filter(is_bridge()) =~= Seq::<NodeInformationModel>::empty());
            assert(bridges@ =~= nodes.take(0).filter(is_bridge()).map_values(id_of));
        }
        while i < topology.nodes.len()
            invariant
                i <= topology.nodes.len(),
                nodes == topology.deep_view().nodes,
                id_of == |n: NodeInformationModel| n.id,
                bridges@ == nodes.take(i as int).filter(is_bridge()).map_values(id_of),
            decreases topology.nodes.len() - i,
        {
            let ghost before = bridges@;
            if topology.nodes[i].id < 10 {
                bridges.push(topology.nodes[i].id);
            }
            proof {
                assert(nodes.take(i + 1) =~= nodes.take(i as int).push(nodes[i as int]));
                nodes.take(i as int).lemma_filter_push(nodes[i as int], is_bridge());
                nodes.take(i as int).filter(is_bridge()).lemma_push_map_commute(
                    id_of,
                    nodes[i as int],
                );
                assert(bridges@ =~= nodes.take(i + 1).filter(is_bridge()).map_values(id_of));
            }
            i += 1;
        }
        proof {
            assert(nodes.take(i as int) =~= nodes);
        }
        let r = ComputationResult {
            schedule: self.parse_to_schedule(bridges, topology),
            domains: decided,
            failed_streams: Vec::new(),
        };
        proof {
            assert(r.failed_streams.deep_view() =~= Seq::<FailedStreamModel>::empty());
        }
        r
    }

    /// The mock schedule for a network with the Bridges `bridges`.
    pub fn parse_to_schedule(&self, bridges: Vec<u32>, _topology: &Topology) -> (r: Schedule)
        ensures
            r.deep_view() == mock_schedule(bridges@),
    {
        let first = "00-00-00-00-00-01:00-01";
        let second = "00-00-00-00-00-01:00-02";
        let third = "00-00-00-00-00-02:00-03";
        let mut configs: Vec<Config> = Vec::new();
        if contains_node(&bridges, 1) {
            configs.push(new_mock_config(1, "sw0p2", "00-60-65-82-c9-5b", 320000, first, second));
            configs.push(new_mock_config(1, "sw0p3", "00-60-65-82-c9-5c", 320000, first, third));
            configs.push(new_mock_config(1, "sw0p4", "00-60-65-82-c9-5d", 640000, second, third));
        }
        if contains_node(&bridges, 2) {
            configs.push(new_mock_config(2, "sw0p2", "00-10-02-00-02-02", 320000, second, third));
            configs.push(new_mock_config(2, "sw0p3", "00-10-02-00-02-03", 320000, second, third));
        }
        proof {
            assert(configs.deep_view() =~= mock_schedule(bridges@).configs);
        }
        Schedule { configs }
    }
}

impl SchedulerAdapterInterface for MockTSNScheduler {
    /// The mock scheduler has one answer.
    open spec fn may_answer(
        &self,
        topology: TopologyModel,
        domains: Seq<DomainModel>,
        result: ComputationResultModel,
    ) -> bool {
        result == mock_result(topology, domains)
    }

    /// The result of [`MockTSNScheduler::compute_fake`].
    fn compute_schedule(&self, topology: &Topology, domains: &Vec<Domain>) -> (r: ComputationResult)
        ensures
            r.deep_view() == mock_result(topology.deep_view(), domains.deep_view()),
    {
        self.compute_fake(topology, domains)
    }
}

/// Builds the mock decision for a Talker or Listener with the interfaces `interfaces`.
fn decide(interfaces: &Vec<GroupInterfaceId>, config_list: &Vec<ConfigListElement>) -> (r:
    GroupStatusTalkerListener)
    ensures
        r.deep_view() == mock_decision(interfaces.deep_view(), config_list.deep_view()),
{
    let mut interface_list: Vec<InterfaceListElement> = Vec::new();
    if interfaces.len() > 0 {
        let copy = config_list.clone();
        proof {
            assert(copy.deep_view() =~= config_list.deep_view());
        }
        interface_list.push(
            InterfaceListElement { config_list: copy, group_interface_id: interfaces[0].clone() },
        );
    }
    let r = GroupStatusTalkerListener {
        accumulated_latency: MOCK_LATENCY,
        interface_configuration: GroupInterfaceConfiguration { interface_list },
    };
    proof {
        assert(r.interface_configuration.interface_list.deep_view() =~= mock_decision(
            interfaces.deep_view(),
            config_list.deep_view(),
        ).interface_configuration.interface_list);
    }
    r
}

/// Derives the configuration list of a Stream from its data-frame specification.
fn derive_config_list(
    specification: &Vec<DataFrameSpecificationElement>,
) -> (r: Vec<ConfigListElement>)
    ensures
        r.deep_view() == specification.deep_view().map_values(config_of_field()),
{
    let ghost f = config_of_field();
    let ghost all = specification.deep_view();
    let mut out: Vec<ConfigListElement> = Vec::new();
    let mut i: usize = 0;
    proof {
        assert(out.deep_view() =~= all.take(0).map_values(f));
    }
    while i < specification.len()
        invariant
            i <= specification.len(),
            all == specification.deep_view(),
            f == config_of_field(),
            out.deep_view() == all.take(i as int).map_values(f),
        decreases specification.len() - i,
    {
        let ghost before = out.deep_view();
        let config_value = match &specification[i].field {
            DataFrameSpecificationElementType::Ieee802MacAddresses(x) => {
                ConfigValue::Ieee802MacAddresses(x.clone())
            },
            DataFrameSpecificationElementType::Ieee802VlanTag(x) => ConfigValue::Ieee802VlanTag(*x),
            DataFrameSpecificationElementType::Ipv4Tuple(x) => ConfigValue::Ipv4Tuple(*x),
            DataFrameSpecificationElementType::Ipv6Tuple(x) => ConfigValue::Ipv6Tuple(*x),
        };
        out.push(ConfigListElement { index: specification[i].index, config_value });
        proof {
            assert(out.deep_view() =~= before.push(f(all[i as int])));
            assert(all.take(i + 1) =~= all.take(i as int).push(all[i as int]));
            all.take(i as int).lemma_push_map_commute(f, all[i as int]);
        }
        i += 1;
    }
    proof {
        assert(all.take(i as int) =~= all);
    }
    out
}

/// Puts the mock decision into `stream`.
fn decide_stream(stream: &mut Stream)
    ensures
        final(stream).deep_view() == mock_stream()(old(stream).deep_view()),
{
    let ghost before = stream.deep_view();
    let config_list = derive_config_list(&stream.talker.group_talker.data_frame_specification);
    stream.talker.group_status_talker_listener = decide(
        &stream.talker.group_talker.end_station_interfaces,
        &config_list,
    );
    let ghost f = mock_listener(config_list.deep_view());
    let mut l: usize = 0;
    while l < stream.listener.len()
        invariant
            l <= stream.listener.len(),
            before == old(stream).deep_view(),
            config_list.deep_view() == mock_config_list(before),
            f == mock_listener(config_list.deep_view()),
            stream.stream_id@ == before.stream_id,
            stream.stream_status == before.stream_status,
            stream.group_status_stream.deep_view() == before.group_status_stream,
            stream.talker.deep_view() == mock_stream()(before).talker,
            stream.listener.len() == before.listener.len(),
            forall|n: int|
                0 <= n < l ==> #[trigger] stream.listener.deep_view()[n] == f(before.listener[n]),
            forall|n: int|
                l <= n < stream.listener.len() ==> #[trigger] stream.listener.deep_view()[n]
                    == before.listener[n],
        decreases stream.listener.len() - l,
    {
        let ghost cur = stream.listener.deep_view();
        let decision = decide(
            &stream.listener[l].group_listener.end_station_interfaces,
            &config_list,
        );
        stream.listener[l].group_status_talker_listener = decision;
        proof {
            assert(stream.listener.deep_view() =~= cur.update(l as int, f(cur[l as int])));
        }
        l += 1;
    }
    proof {
        assert(stream.listener.deep_view() =~= before.listener.map_values(f));
    }
}

/// Puts the mock decision into every Stream of `domains`.
fn decide_domains(domains: &mut Vec<Domain>)
    ensures
        final(domains).deep_view() == old(domains).deep_view().map_values(mock_domain()),
{
    let ghost before = domains.deep_view();
    let mut i: usize = 0;
    while i < domains.len()
        invariant
            i <= domains.len(),
            before == old(domains).deep_view(),
            domains.len() == before.len(),
            forall|n: int|
                0 <= n < i ==> #[trigger] domains.deep_view()[n] == mock_domain()(before[n]),
            forall|n: int|
                i <= n < domains.len() ==> #[trigger] domains.deep_view()[n] == before[n],
        decreases domains.len() - i,
    {
        let ghost cur = domains.deep_view();
        decide_domain(&mut domains[i]);
        proof {
            assert(domains.deep_view() =~= cur.update(i as int, mock_domain()(cur[i as int])));
        }
        i += 1;
    }
    proof {
        assert(domains.deep_view() =~= before.map_values(mock_domain()));
    }
}

/// Puts the mock decision into every Stream of `domain`.
fn decide_domain(domain: &mut Domain)
    ensures
        final(domain).deep_view() == mock_domain()(old(domain).deep_view()),
{
    let ghost before = domain.deep_view();
    let mut j: usize = 0;
    while j < domain.cuc.len()
        invariant
            j <= domain.cuc.len(),
            before == old(domain).deep_view(),
            domain.domain_id@ == before.domain_id,
            domain.cnc_enabled == before.cnc_enabled,
            domain.cuc.len() == before.cuc.len(),
            forall|n: int|
                0 <= n < j ==> #[trigger] domain.cuc.deep_view()[n] == mock_cuc()(before.cuc[n]),
            forall|n: int|
                j <= n < domain.cuc.len() ==> #[trigger] domain.cuc.deep_view()[n] == before.cuc[n],
        decreases domain.cuc.len() - j,
    {
        let ghost cur = domain.cuc.deep_view();
        decide_cuc(&mut domain.cuc[j]);
        proof {
            assert(domain.cuc.deep_view() =~= cur.update(j as int, mock_cuc()(cur[j as int])));
        }
        j += 1;
    }
    proof {
        assert(domain.cuc.deep_view() =~= before.cuc.map_values(mock_cuc()));
    }
}

/// Puts the mock decision into every Stream of `cuc`.
fn decide_cuc(cuc: &mut Cuc)
    ensures
        final(cuc).deep_view() == mock_cuc()(old(cuc).deep_view()),
{
    let ghost before = cuc.deep_view();
    let mut k: usize = 0;
    while k < cuc.stream.len()
        invariant
            k <= cuc.stream.len(),
            before == old(cuc).deep_view(),
            cuc.cuc_id@ == before.cuc_id,
            cuc.stream.len() == before.stream.len(),
            forall|n: int|
                0 <= n < k
                    ==> #[trigger] cuc.stream.deep_view()[n] == mock_stream()(before.stream[n]),
            forall|n: int|
                k <= n < cuc.stream.len()
                    ==> #[trigger] cuc.stream.deep_view()[n] == before.stream[n],
        decreases cuc.stream.len() - k,
    {
        let ghost cur = cuc.stream.deep_view();
        decide_stream(&mut cuc.stream[k]);
        proof {
            assert(cuc.stream.deep_view() =~= cur.update(k as int, mock_stream()(cur[k as int])));
        }
        k += 1;
    }
    proof {
        assert(cuc.stream.deep_view() =~= before.stream.map_values(mock_stream()));
    }
}

} // verus!
