//! Common types of the TSN user/network configuration (IEEE 802.1Qdj, tsn-types).

use vstd::prelude::*;

verus! {

/// A Stream identifier: a MAC address and a 16-bit unique id, written in upper-case hex as
/// `XX-XX-XX-XX-XX-XX:XX-XX`.
pub type StreamIdTypeUpper = String;

/// Names one physical interface of a station: the station's MAC address and the
/// interface's name on that station.
#[derive(Debug)]
pub struct GroupInterfaceId {
    /// MAC address of the station, lower- or upper-case hex separated by dashes.
    pub mac_address: String,
    /// Name of the interface, unique within the station.
    pub interface_name: String,
}

/// What a [`GroupInterfaceId`] holds, as a mathematical value.
pub struct GroupInterfaceIdModel {
    pub mac_address: Seq<char>,
    pub interface_name: Seq<char>,
}

impl DeepView for GroupInterfaceId {
    type V = GroupInterfaceIdModel;

    open spec fn deep_view(&self) -> GroupInterfaceIdModel {
        GroupInterfaceIdModel {
            mac_address: self.mac_address.deep_view(),
            interface_name: self.interface_name.deep_view(),
        }
    }
}

impl Clone for GroupInterfaceId {
    fn clone(&self) -> (r: Self)
        ensures
            r.deep_view() == self.deep_view(),
    {
        let mac_address = self.mac_address.clone();
        let interface_name = self.interface_name.clone();
        GroupInterfaceId { mac_address, interface_name }
    }
}

/// Source and destination MAC address of a Stream's frames.
#[derive(Debug)]
pub struct GroupIeee802MacAddress {
    pub destination_mac_adress: String,
    pub source_mac_adress: String,
}

/// What a [`GroupIeee802MacAddress`] holds, as a mathematical value.
pub struct GroupIeee802MacAddressModel {
    pub destination_mac_adress: Seq<char>,
    pub source_mac_adress: Seq<char>,
}

impl DeepView for GroupIeee802MacAddress {
    type V = GroupIeee802MacAddressModel;

    open spec fn deep_view(&self) -> GroupIeee802MacAddressModel {
        GroupIeee802MacAddressModel {
            destination_mac_adress: self.destination_mac_adress.deep_view(),
            source_mac_adress: self.source_mac_adress.deep_view(),
        }
    }
}

impl Clone for GroupIeee802MacAddress {
    fn clone(&self) -> (r: Self)
        ensures
            r.deep_view() == self.deep_view(),
    {
        let destination_mac_adress = self.destination_mac_adress.clone();
        let source_mac_adress = self.source_mac_adress.clone();
        GroupIeee802MacAddress { destination_mac_adress, source_mac_adress }
    }
}

/// The customer VLAN tag of a Stream's frames.
#[derive(Clone, Copy, Debug)]
pub struct GroupIeee802VlanTag {
    /// Priority code point, 0 to 7.
    pub priority_code_point: u8,
    /// VLAN id; 0 stands for a priority-tagged frame.
    pub vlan_id: u16,
}

impl DeepView for GroupIeee802VlanTag {
    type V = GroupIeee802VlanTag;

    open spec fn deep_view(&self) -> GroupIeee802VlanTag {
        *self
    }
}

/// The IPv4 five-tuple (with DSCP) that identifies a Stream's packets.
#[derive(Clone, Copy, Debug)]
pub struct GroupIpv4Tuple {
    /// Source address, most significant octet first.
    pub source_ip_adress: [u8; 4],
    /// Destination address, most significant octet first.
    pub destination_ip_adress: [u8; 4],
    pub dscp: u8,
    pub protocol: u16,
    pub source_port: u16,
    pub destination_port: u16,
}

impl DeepView for GroupIpv4Tuple {
    type V = GroupIpv4Tuple;

    open spec fn deep_view(&self) -> GroupIpv4Tuple {
        *self
    }
}

/// The IPv6 five-tuple (with DSCP) that identifies a Stream's packets.
#[derive(Clone, Copy, Debug)]
pub struct GroupIpv6Tuple {
    /// Source address, most significant octet first.
    pub source_ip_adress: [u8; 16],
    /// Destination address, most significant octet first.
    pub destination_ip_adress: [u8; 16],
    pub dscp: u8,
    pub protocol: u16,
    pub source_port: u16,
    pub destination_port: u16,
}

impl DeepView for GroupIpv6Tuple {
    type V = GroupIpv6Tuple;

    open spec fn deep_view(&self) -> GroupIpv6Tuple {
        *self
    }
}

/// What a Talker or Listener asks of the network.
#[derive(Clone, Copy, Debug)]
pub struct GroupUserToNetworkRequirements {
    /// Number of maximally disjoint trees the network should provide.
    pub num_seemless_trees: u8,
    /// Upper bound on the latency from Talker to Listener, in nanoseconds.
    pub max_latency: u32,
}

impl DeepView for GroupUserToNetworkRequirements {
    type V = GroupUserToNetworkRequirements;

    open spec fn deep_view(&self) -> GroupUserToNetworkRequirements {
        *self
    }
}

/// What the interfaces of an end station are able to do.
#[derive(Debug)]
pub struct GroupInterfaceCapabilities {
    /// Whether the interface can insert and remove VLAN tags.
    pub vlan_tag_capable: bool,
    /// Supported stream identification types of IEEE 802.1CB.
    pub cb_stream_iden_type_list: Vec<u32>,
    /// Supported sequence encode/decode types of IEEE 802.1CB.
    pub cb_sequence_type_list: Vec<u32>,
}

/// What a [`GroupInterfaceCapabilities`] holds, as a mathematical value.
pub struct GroupInterfaceCapabilitiesModel {
    pub vlan_tag_capable: bool,
    pub cb_stream_iden_type_list: Seq<u32>,
    pub cb_sequence_type_list: Seq<u32>,
}

impl DeepView for GroupInterfaceCapabilities {
    type V = GroupInterfaceCapabilitiesModel;

    open spec fn deep_view(&self) -> GroupInterfaceCapabilitiesModel {
        GroupInterfaceCapabilitiesModel {
            vlan_tag_capable: self.vlan_tag_capable.deep_view(),
            cb_stream_iden_type_list: self.cb_stream_iden_type_list.deep_view(),
            cb_sequence_type_list: self.cb_sequence_type_list.deep_view(),
        }
    }
}

impl Clone for GroupInterfaceCapabilities {
    fn clone(&self) -> (r: Self)
        ensures
            r.deep_view() == self.deep_view(),
    {
        let cb_stream_iden_type_list = self.cb_stream_iden_type_list.clone();
        let cb_sequence_type_list = self.cb_sequence_type_list.clone();
        proof {
            assert(cb_stream_iden_type_list.deep_view()
                =~= self.cb_stream_iden_type_list.deep_view());
            assert(cb_sequence_type_list.deep_view() =~= self.cb_sequence_type_list.deep_view());
        }
        GroupInterfaceCapabilities {
            vlan_tag_capable: self.vlan_tag_capable,
            cb_stream_iden_type_list,
            cb_sequence_type_list,
        }
    }
}

/// One value that the CNC hands back for an end-station interface.
#[derive(Debug)]
pub enum ConfigValue {
    Ieee802MacAddresses(GroupIeee802MacAddress),
    Ieee802VlanTag(GroupIeee802VlanTag),
    Ipv4Tuple(GroupIpv4Tuple),
    Ipv6Tuple(GroupIpv6Tuple),
    /// Offset at which the Talker has to transmit within its interval, in nanoseconds.
    TimeAwareOffset(u32),
}

/// What a [`ConfigValue`] holds, as a mathematical value.
pub enum ConfigValueModel {
    Ieee802MacAddresses(GroupIeee802MacAddressModel),
    Ieee802VlanTag(GroupIeee802VlanTag),
    Ipv4Tuple(GroupIpv4Tuple),
    Ipv6Tuple(GroupIpv6Tuple),
    TimeAwareOffset(u32),
}

impl DeepView for ConfigValue {
    type V = ConfigValueModel;

    open spec fn deep_view(&self) -> ConfigValueModel {
        match self {
            ConfigValue::Ieee802MacAddresses(x) => {
                ConfigValueModel::Ieee802MacAddresses(x.deep_view())
            },
            ConfigValue::Ieee802VlanTag(x) => ConfigValueModel::Ieee802VlanTag(x.deep_view()),
            ConfigValue::Ipv4Tuple(x) => ConfigValueModel::Ipv4Tuple(x.deep_view()),
            ConfigValue::Ipv6Tuple(x) => ConfigValueModel::Ipv6Tuple(x.deep_view()),
            ConfigValue::TimeAwareOffset(x) => ConfigValueModel::TimeAwareOffset(x.deep_view()),
        }
    }
}

impl Clone for ConfigValue {
    fn clone(&self) -> (r: Self)
        ensures
            r.deep_view() == self.deep_view(),
    {
        match self {
            ConfigValue::Ieee802MacAddresses(x) => ConfigValue::Ieee802MacAddresses(x.clone()),
            ConfigValue::Ieee802VlanTag(x) => ConfigValue::Ieee802VlanTag(*x),
            ConfigValue::Ipv4Tuple(x) => ConfigValue::Ipv4Tuple(*x),
            ConfigValue::Ipv6Tuple(x) => ConfigValue::Ipv6Tuple(*x),
            ConfigValue::TimeAwareOffset(x) => ConfigValue::TimeAwareOffset(*x),
        }
    }
}

/// One indexed entry of an interface's configuration list.
#[derive(Debug)]
pub struct ConfigListElement {
    pub index: u8,
    pub config_value: ConfigValue,
}

/// What a [`ConfigListElement`] holds, as a mathematical value.
pub struct ConfigListElementModel {
    pub index: u8,
    pub config_value: ConfigValueModel,
}

impl DeepView for ConfigListElement {
    type V = ConfigListElementModel;

    open spec fn deep_view(&self) -> ConfigListElementModel {
        ConfigListElementModel {
            index: self.index.deep_view(),
            config_value: self.config_value.deep_view(),
        }
    }
}

impl Clone for ConfigListElement {
    fn clone(&self) -> (r: Self)
        ensures
            r.deep_view() == self.deep_view(),
    {
        let config_value = self.config_value.clone();
        ConfigListElement { index: self.index, config_value }
    }
}

/// The configuration of one end-station interface.
#[derive(Debug)]
pub struct InterfaceListElement {
    pub config_list: Vec<ConfigListElement>,
    pub group_interface_id: GroupInterfaceId,
}

/// What a [`InterfaceListElement`] holds, as a mathematical value.
pub struct InterfaceListElementModel {
    pub config_list: Seq<ConfigListElementModel>,
    pub group_interface_id: GroupInterfaceIdModel,
}

impl DeepView for InterfaceListElement {
    type V = InterfaceListElementModel;

    open spec fn deep_view(&self) -> InterfaceListElementModel {
        InterfaceListElementModel {
            config_list: self.config_list.deep_view(),
            group_interface_id: self.group_interface_id.deep_view(),
        }
    }
}

impl Clone for InterfaceListElement {
    fn clone(&self) -> (r: Self)
        ensures
            r.deep_view() == self.deep_view(),
    {
        let config_list = self.config_list.clone();
        let group_interface_id = self.group_interface_id.clone();
        proof {
            assert(config_list.deep_view() =~= self.config_list.deep_view());
        }
        InterfaceListElement { config_list, group_interface_id }
    }
}

/// The interface configurations that the CNC computed for a Talker or Listener.
#[derive(Debug)]
pub struct GroupInterfaceConfiguration {
    pub interface_list: Vec<InterfaceListElement>,
}

/// What a [`GroupInterfaceConfiguration`] holds, as a mathematical value.
pub struct GroupInterfaceConfigurationModel {
    pub interface_list: Seq<InterfaceListElementModel>,
}

impl DeepView for GroupInterfaceConfiguration {
    type V = GroupInterfaceConfigurationModel;

    open spec fn deep_view(&self) -> GroupInterfaceConfigurationModel {
        GroupInterfaceConfigurationModel {
            interface_list: self.interface_list.deep_view(),
        }
    }
}

impl Clone for GroupInterfaceConfiguration {
    fn clone(&self) -> (r: Self)
        ensures
            r.deep_view() == self.deep_view(),
    {
        let interface_list = self.interface_list.clone();
        proof {
            assert(interface_list.deep_view() =~= self.interface_list.deep_view());
        }
        GroupInterfaceConfiguration { interface_list }
    }
}

/// Rank of a Stream relative to others; 0 marks emergency traffic.
#[derive(Clone, Copy, Debug)]
pub struct StreamRankContainer {
    pub rank: u8,
}

impl DeepView for StreamRankContainer {
    type V = StreamRankContainer;

    open spec fn deep_view(&self) -> StreamRankContainer {
        *self
    }
}

/// One field by which the frames of a Stream are recognised.
#[derive(Debug)]
pub enum DataFrameSpecificationElementType {
    Ieee802MacAddresses(GroupIeee802MacAddress),
    Ieee802VlanTag(GroupIeee802VlanTag),
    Ipv4Tuple(GroupIpv4Tuple),
    Ipv6Tuple(GroupIpv6Tuple),
}

/// What a [`DataFrameSpecificationElementType`] holds, as a mathematical value.
pub enum DataFrameSpecificationElementTypeModel {
    Ieee802MacAddresses(GroupIeee802MacAddressModel),
    Ieee802VlanTag(GroupIeee802VlanTag),
    Ipv4Tuple(GroupIpv4Tuple),
    Ipv6Tuple(GroupIpv6Tuple),
}

impl DeepView for DataFrameSpecificationElementType {
    type V = DataFrameSpecificationElementTypeModel;

    open spec fn deep_view(&self) -> DataFrameSpecificationElementTypeModel {
        match self {
            DataFrameSpecificationElementType::Ieee802MacAddresses(x) => {
                DataFrameSpecificationElementTypeModel::Ieee802MacAddresses(x.deep_view())
            },
            DataFrameSpecificationElementType::Ieee802VlanTag(x) => {
                DataFrameSpecificationElementTypeModel::Ieee802VlanTag(x.deep_view())
            },
            DataFrameSpecificationElementType::Ipv4Tuple(x) => {
                DataFrameSpecificationElementTypeModel::Ipv4Tuple(x.deep_view())
            },
            DataFrameSpecificationElementType::Ipv6Tuple(x) => {
                DataFrameSpecificationElementTypeModel::Ipv6Tuple(x.deep_view())
            },
        }
    }
}

impl Clone for DataFrameSpecificationElementType {
    fn clone(&self) -> (r: Self)
        ensures
            r.deep_view() == self.deep_view(),
    {
        match self {
            DataFrameSpecificationElementType::Ieee802MacAddresses(x) => {
                DataFrameSpecificationElementType::Ieee802MacAddresses(x.clone())
            },
            DataFrameSpecificationElementType::Ieee802VlanTag(x) => {
                DataFrameSpecificationElementType::Ieee802VlanTag(*x)
            },
            DataFrameSpecificationElementType::Ipv4Tuple(x) => {
                DataFrameSpecificationElementType::Ipv4Tuple(*x)
            },
            DataFrameSpecificationElementType::Ipv6Tuple(x) => {
                DataFrameSpecificationElementType::Ipv6Tuple(*x)
            },
        }
    }
}

/// One indexed entry of a Talker's data-frame specification.
#[derive(Debug)]
pub struct DataFrameSpecificationElement {
    pub index: u8,
    pub field: DataFrameSpecificationElementType,
}

/// What a [`DataFrameSpecificationElement`] holds, as a mathematical value.
pub struct DataFrameSpecificationElementModel {
    pub index: u8,
    pub field: DataFrameSpecificationElementTypeModel,
}

impl DeepView for DataFrameSpecificationElement {
    type V = DataFrameSpecificationElementModel;

    open spec fn deep_view(&self) -> DataFrameSpecificationElementModel {
        DataFrameSpecificationElementModel {
            index: self.index.deep_view(),
            field: self.field.deep_view(),
        }
    }
}

impl Clone for DataFrameSpecificationElement {
    fn clone(&self) -> (r: Self)
        ensures
            r.deep_view() == self.deep_view(),
    {
        let field = self.field.clone();
        DataFrameSpecificationElement { index: self.index, field }
    }
}

/// The period of a Stream as a rational number of seconds.
#[derive(Clone, Copy, Debug)]
pub struct TrafficSpecificationInterval {
    pub numerator: u32,
    pub denominator: u32,
}

impl DeepView for TrafficSpecificationInterval {
    type V = TrafficSpecificationInterval;

    open spec fn deep_view(&self) -> TrafficSpecificationInterval {
        *self
    }
}

/// Transmit window of a time-aware Talker, relative to the start of its interval.
#[derive(Clone, Copy, Debug)]
pub struct TimeAwareContainer {
    /// Earliest offset at which the Talker can start to transmit, in nanoseconds.
    pub earliest_transmit_offset: u32,
    /// Latest offset at which the Talker can start to transmit, in nanoseconds.
    pub latest_transmit_offset: u32,
    /// Maximum deviation of the transmit time from the offset, in nanoseconds.
    pub jitter: u32,
}

impl DeepView for TimeAwareContainer {
    type V = TimeAwareContainer;

    open spec fn deep_view(&self) -> TimeAwareContainer {
        *self
    }
}

/// How a Talker transmits the frames of a Stream.
#[derive(Clone, Copy, Debug)]
pub struct TrafficSpecificationContainer {
    pub interval: TrafficSpecificationInterval,
    pub max_frames_per_interval: u16,
    pub max_frame_size: u16,
    /// Code of the transmission selection algorithm; 0 is strict priority.
    pub transmission_selection: u8,
    /// Present when the Talker is synchronised to network time.
    pub time_aware: Option<TimeAwareContainer>,
}

impl DeepView for TrafficSpecificationContainer {
    type V = TrafficSpecificationContainer;

    open spec fn deep_view(&self) -> TrafficSpecificationContainer {
        *self
    }
}

/// Everything a Talker states about a Stream: how it transmits, what it needs from
/// the network and what its interfaces can do.
#[derive(Debug)]
pub struct GroupTalker {
    pub stream_rank: StreamRankContainer,
    pub end_station_interfaces: Vec<GroupInterfaceId>,
    pub data_frame_specification: Vec<DataFrameSpecificationElement>,
    pub traffic_specification: TrafficSpecificationContainer,
    pub user_to_network_requirements: GroupUserToNetworkRequirements,
    pub interface_capabilities: GroupInterfaceCapabilities,
}

/// What a [`GroupTalker`] holds, as a mathematical value.
pub struct GroupTalkerModel {
    pub stream_rank: StreamRankContainer,
    pub end_station_interfaces: Seq<GroupInterfaceIdModel>,
    pub data_frame_specification: Seq<DataFrameSpecificationElementModel>,
    pub traffic_specification: TrafficSpecificationContainer,
    pub user_to_network_requirements: GroupUserToNetworkRequirements,
    pub interface_capabilities: GroupInterfaceCapabilitiesModel,
}

impl DeepView for GroupTalker {
    type V = GroupTalkerModel;

    open spec fn deep_view(&self) -> GroupTalkerModel {
        GroupTalkerModel {
            stream_rank: self.stream_rank.deep_view(),
            end_station_interfaces: self.end_station_interfaces.deep_view(),
            data_frame_specification: self.data_frame_specification.deep_view(),
            traffic_specification: self.traffic_specification.deep_view(),
            user_to_network_requirements: self.user_to_network_requirements.deep_view(),
            interface_capabilities: self.interface_capabilities.deep_view(),
        }
    }
}

impl Clone for GroupTalker {
    fn clone(&self) -> (r: Self)
        ensures
            r.deep_view() == self.deep_view(),
    {
        let end_station_interfaces = self.end_station_interfaces.clone();
        let data_frame_specification = self.data_frame_specification.clone();
        let interface_capabilities = self.interface_capabilities.clone();
        proof {
            assert(end_station_interfaces.deep_view() =~= self.end_station_interfaces.deep_view());
            assert(data_frame_specification.deep_view()
                =~= self.data_frame_specification.deep_view());
        }
        GroupTalker {
            stream_rank: self.stream_rank,
            end_station_interfaces,
            data_frame_specification,
            traffic_specification: self.traffic_specification,
            user_to_network_requirements: self.user_to_network_requirements,
            interface_capabilities,
        }
    }
}

/// Everything a Listener states about a Stream.
#[derive(Debug)]
pub struct GroupListener {
    /// Key of the Listener within its Stream.
    pub index: u32,
    pub end_station_interfaces: Vec<GroupInterfaceId>,
    pub user_to_network_requirements: GroupUserToNetworkRequirements,
    pub interface_capabilities: GroupInterfaceCapabilities,
}

/// What a [`GroupListener`] holds, as a mathematical value.
pub struct GroupListenerModel {
    pub index: u32,
    pub end_station_interfaces: Seq<GroupInterfaceIdModel>,
    pub user_to_network_requirements: GroupUserToNetworkRequirements,
    pub interface_capabilities: GroupInterfaceCapabilitiesModel,
}

impl DeepView for GroupListener {
    type V = GroupListenerModel;

    open spec fn deep_view(&self) -> GroupListenerModel {
        GroupListenerModel {
            index: self.index.deep_view(),
            end_station_interfaces: self.end_station_interfaces.deep_view(),
            user_to_network_requirements: self.user_to_network_requirements.deep_view(),
            interface_capabilities: self.interface_capabilities.deep_view(),
        }
    }
}

impl Clone for GroupListener {
    fn clone(&self) -> (r: Self)
        ensures
            r.deep_view() == self.deep_view(),
    {
        let end_station_interfaces = self.end_station_interfaces.clone();
        let interface_capabilities = self.interface_capabilities.clone();
        proof {
            assert(end_station_interfaces.deep_view() =~= self.end_station_interfaces.deep_view());
        }
        GroupListener {
            index: self.index,
            end_station_interfaces,
            user_to_network_requirements: self.user_to_network_requirements,
            interface_capabilities,
        }
    }
}

/// Whether the Talker of a Stream is ready.
#[derive(Clone, Copy, Debug, PartialEq, Eq, Structural)]
pub enum TalkerStatus {
    /// No Talker was detected.
    NoTalker,
    Ready,
    Failed,
}

impl DeepView for TalkerStatus {
    type V = TalkerStatus;

    open spec fn deep_view(&self) -> TalkerStatus {
        *self
    }
}

/// Whether the Listeners of a Stream are ready.
#[derive(Clone, Copy, Debug, PartialEq, Eq, Structural)]
pub enum ListenerStatus {
    /// No Listener was detected.
    NoListener,
    /// All Listeners are ready.
    Ready,
    /// Some Listeners are ready, others failed.
    PartialFailed,
    /// All Listeners failed.
    Failed,
}

impl DeepView for ListenerStatus {
    type V = ListenerStatus;

    open spec fn deep_view(&self) -> ListenerStatus {
        *self
    }
}

/// Status of a Stream's configuration in the network.
#[derive(Clone, Copy, Debug)]
pub struct StatusInfoContainer {
    pub talker_status: TalkerStatus,
    pub listener_status: ListenerStatus,
    /// Zero when Talker and Listeners are ready, else a code of IEEE 802.1Q Table 46-15.
    pub failure_code: i32,
}

impl DeepView for StatusInfoContainer {
    type V = StatusInfoContainer;

    open spec fn deep_view(&self) -> StatusInfoContainer {
        *self
    }
}

/// Status of a Stream as a whole, with the interfaces at which it failed.
#[derive(Debug)]
pub struct GroupStatusStream {
    pub status_info: StatusInfoContainer,
    pub failed_interfaces: Vec<GroupInterfaceId>,
}

/// What a [`GroupStatusStream`] holds, as a mathematical value.
pub struct GroupStatusStreamModel {
    pub status_info: StatusInfoContainer,
    pub failed_interfaces: Seq<GroupInterfaceIdModel>,
}

impl DeepView for GroupStatusStream {
    type V = GroupStatusStreamModel;

    open spec fn deep_view(&self) -> GroupStatusStreamModel {
        GroupStatusStreamModel {
            status_info: self.status_info.deep_view(),
            failed_interfaces: self.failed_interfaces.deep_view(),
        }
    }
}

impl Clone for GroupStatusStream {
    fn clone(&self) -> (r: Self)
        ensures
            r.deep_view() == self.deep_view(),
    {
        let failed_interfaces = self.failed_interfaces.clone();
        proof {
            assert(failed_interfaces.deep_view() =~= self.failed_interfaces.deep_view());
        }
        GroupStatusStream { status_info: self.status_info, failed_interfaces }
    }
}

/// What the scheduler decided for one Talker or Listener.
#[derive(Debug)]
pub struct GroupStatusTalkerListener {
    /// Worst-case latency of a frame along the current path, in nanoseconds.
    pub accumulated_latency: u32,
    pub interface_configuration: GroupInterfaceConfiguration,
}

/// What a [`GroupStatusTalkerListener`] holds, as a mathematical value.
pub struct GroupStatusTalkerListenerModel {
    pub accumulated_latency: u32,
    pub interface_configuration: GroupInterfaceConfigurationModel,
}

impl DeepView for GroupStatusTalkerListener {
    type V = GroupStatusTalkerListenerModel;

    open spec fn deep_view(&self) -> GroupStatusTalkerListenerModel {
        GroupStatusTalkerListenerModel {
            accumulated_latency: self.accumulated_latency.deep_view(),
            interface_configuration: self.interface_configuration.deep_view(),
        }
    }
}

impl Clone for GroupStatusTalkerListener {
    fn clone(&self) -> (r: Self)
        ensures
            r.deep_view() == self.deep_view(),
    {
        let interface_configuration = self.interface_configuration.clone();
        GroupStatusTalkerListener {
            accumulated_latency: self.accumulated_latency,
            interface_configuration,
        }
    }
}

/// Delays of frames passing through a Bridge port at one port speed, in picoseconds.
#[derive(Clone, Copy, Debug)]
pub struct BridgePortDelays {
    /// The port speed that keys this record, in megabits per second.
    pub port_speed: u32,
    pub dependent_rx_delay_min: u64,
    pub dependent_rx_delay_max: u64,
    pub independent_rx_delay_min: u64,
    pub independent_rx_delay_max: u64,
    pub independent_rly_delay_min: u64,
    pub independent_rly_delay_max: u64,
    pub independent_tx_delay_min: u64,
    pub independent_tx_delay_max: u64,
}

impl DeepView for BridgePortDelays {
    type V = BridgePortDelays;

    open spec fn deep_view(&self) -> BridgePortDelays {
        *self
    }
}

impl BridgePortDelays {
    /// A record with every delay and the port speed at zero.
    pub fn new() -> (r: Self)
        ensures
            r == (BridgePortDelays {
                port_speed: 0,
                dependent_rx_delay_min: 0,
                dependent_rx_delay_max: 0,
                independent_rx_delay_min: 0,
                independent_rx_delay_max: 0,
                independent_rly_delay_min: 0,
                independent_rly_delay_max: 0,
                independent_tx_delay_min: 0,
                independent_tx_delay_max: 0,
            }),
    {
        BridgePortDelays {
            port_speed: 0,
            dependent_rx_delay_min: 0,
            dependent_rx_delay_max: 0,
            independent_rx_delay_min: 0,
            independent_rx_delay_max: 0,
            independent_rly_delay_min: 0,
            independent_rly_delay_max: 0,
            independent_tx_delay_min: 0,
            independent_tx_delay_max: 0,
        }
    }
}

} // verus!
