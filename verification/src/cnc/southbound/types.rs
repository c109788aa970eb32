//! What the controller knows about the YANG data of a Bridge.

use vstd::prelude::*;
use vstd::string::*;

verus! {

/// A YANG module that has to be loaded before the data of a Bridge can be read.
#[derive(Clone, Copy, Debug)]
pub struct YangModule {
    pub name: &'static str,
    pub revision: Option<&'static str>,
    pub features: &'static [&'static str],
}

impl YangModule {
    /// The module `name` in the revision `revision`, without features.
    pub fn new(name: &'static str, revision: &'static str) -> (r: Self)
        ensures
            r.name == name,
            r.revision == Some(revision),
            r.features@.len() == 0,
    {
        YangModule { name, revision: Some(revision), features: &[] }
    }

    /// The module `name` in the revision `revision`, with the features `features` enabled.
    pub fn new_with_features(
        name: &'static str,
        revision: &'static str,
        features: &'static [&'static str],
    ) -> (r: Self)
        ensures
            r.name == name,
            r.revision == Some(revision),
            r.features == features,
    {
        YangModule { name, revision: Some(revision), features }
    }
}

/// A module of the list of modules: its name, its revision and the features to enable.
pub open spec fn module_entry(name: Seq<char>, revision: Seq<char>, features: Seq<Seq<char>>) -> (
    Seq<char>,
    Seq<char>,
    Seq<Seq<char>>,
) {
    (name, revision, features)
}

/// The modules that the reference Bridge needs, in the order in which they are loaded.
pub open spec fn yang_module_list() -> Seq<(Seq<char>, Seq<char>, Seq<Seq<char>>)> {
    seq![
        module_entry("ietf-interfaces"@, "2018-02-20"@, seq!["if-mib"@]),
        module_entry("ietf-yang-types"@, "2013-07-15"@, Seq::empty()),
        module_entry("iana-if-type"@, "2017-01-19"@, Seq::empty()),
        module_entry("ieee802-types"@, "2020-10-23"@, Seq::empty()),
        module_entry("ieee802-dot1q-bridge"@, "2020-11-07"@, Seq::empty()),
        module_entry("ieee802-dot1q-types"@, "2020-10-24"@, Seq::empty()),
        module_entry("ieee802-dot1q-bridge-delays"@, "2021-11-23"@, Seq::empty()),
        module_entry("ieee802-dot1q-preemption"@, "2018-09-10"@, Seq::empty()),
        module_entry("ieee802-dot1q-sched"@, "2018-09-11"@, seq!["scheduled-traffic"@]),
        module_entry("ietf-routing"@, "2018-03-13"@, Seq::empty()),
        module_entry("ieee802-dot1ab-types"@, "2018-10-03"@, Seq::empty()),
        module_entry("ieee802-dot1ab-lldp"@, "2018-11-13"@, Seq::empty()),
    ]
}

/// What a module says, as a mathematical value: its name, its revision, where it has one, and
/// its features.
pub open spec fn module_model(m: YangModule) -> (Seq<char>, Option<Seq<char>>, Seq<Seq<char>>) {
    (
        m.name@,
        match m.revision {
            Some(revision) => Some(revision@),
            None => None,
        },
        m.features@.map_values(|feature: &'static str| feature@),
    )
}

/// The modules that the reference Bridge needs: those of `yang_module_list`, in that order.
pub fn yang_modules() -> (r: Vec<YangModule>)
    ensures
        r@.len() == yang_module_list().len(),
        forall|i: int|
            0 <= i < r@.len() ==> module_model(#[trigger] r@[i]) == (
                yang_module_list()[i].0,
                Some(yang_module_list()[i].1),
                yang_module_list()[i].2,
            ),
{
    let mut r: Vec<YangModule> = Vec::new();
    let features: &'static [&'static str] = &["if-mib"];
    proof {
        assert(features@.map_values(|feature: &'static str| feature@) =~= seq!["if-mib"@]);
    }
    r.push(YangModule::new_with_features("ietf-interfaces", "2018-02-20", features));
    r.push(YangModule::new("ietf-yang-types", "2013-07-15"));
    r.push(YangModule::new("iana-if-type", "2017-01-19"));
    r.push(YangModule::new("ieee802-types", "2020-10-23"));
    r.push(YangModule::new("ieee802-dot1q-bridge", "2020-11-07"));
    r.push(YangModule::new("ieee802-dot1q-types", "2020-10-24"));
    r.push(YangModule::new("ieee802-dot1q-bridge-delays", "2021-11-23"));
    r.push(YangModule::new("ieee802-dot1q-preemption", "2018-09-10"));
    let features: &'static [&'static str] = &["scheduled-traffic"];
    proof {
        assert(features@.map_values(|feature: &'static str| feature@)
            =~= seq!["scheduled-traffic"@]);
    }
    r.push(YangModule::new_with_features("ieee802-dot1q-sched", "2018-09-11", features));
    r.push(YangModule::new("ietf-routing", "2018-03-13"));
    r.push(YangModule::new("ieee802-dot1ab-types", "2018-10-03"));
    r.push(YangModule::new("ieee802-dot1ab-lldp", "2018-11-13"));
    proof {
        assert forall|i: int| 0 <= i < r@.len() implies module_model(#[trigger] r@[i]) == (
            yang_module_list()[i].0,
            Some(yang_module_list()[i].1),
            yang_module_list()[i].2,
        ) by {
            assert(r@[i].features@.map_values(|feature: &'static str| feature@)
                =~= yang_module_list()[i].2);
        }
    }
    r
}

/// The subtree filters with which the controller asks a Bridge for data.
#[derive(Debug)]
pub struct SearchFilters {
    /// Asks for every interface's gate parameters.
    pub gate_parameters: String,
    /// Asks for every interface's gate parameters and bridge port.
    pub gate_parameters_and_bridge_ports: String,
    /// Asks for the neighbours of every port.
    pub remote_systems_data: String,
}

/// What a [`SearchFilters`] holds, as a mathematical value.
pub struct SearchFiltersModel {
    pub gate_parameters: Seq<char>,
    pub gate_parameters_and_bridge_ports: Seq<char>,
    pub remote_systems_data: Seq<char>,
}

impl DeepView for SearchFilters {
    type V = SearchFiltersModel;

    open spec fn deep_view(&self) -> SearchFiltersModel {
        SearchFiltersModel {
            gate_parameters: self.gate_parameters.deep_view(),
            gate_parameters_and_bridge_ports: self.gate_parameters_and_bridge_ports.deep_view(),
            remote_systems_data: self.remote_systems_data.deep_view(),
        }
    }
}

impl Clone for SearchFilters {
    fn clone(&self) -> (r: Self)
        ensures
            r.deep_view() == self.deep_view(),
    {
        let gate_parameters = self.gate_parameters.clone();
        let gate_parameters_and_bridge_ports = self.gate_parameters_and_bridge_ports.clone();
        let remote_systems_data = self.remote_systems_data.clone();
        SearchFilters { gate_parameters, gate_parameters_and_bridge_ports, remote_systems_data }
    }
}

impl SearchFilters {
    /// The filters of the reference Bridge, as a mathematical value.
    pub open spec fn br_filters() -> SearchFiltersModel {
        SearchFiltersModel {
            gate_parameters: "<interfaces xmlns=\"urn:ietf:params:xml:ns:yang:ietf-interfaces\">\
                <interface>\
                <gate-parameters xmlns=\"urn:ieee:std:802.1Q:yang:ieee802-dot1q-sched\"></gate-parameters>\
                </interface>\
                </interfaces>"@,
            gate_parameters_and_bridge_ports: "<interfaces xmlns=\"urn:ietf:params:xml:ns:yang:ietf-interfaces\">\
                <interface>\
                <gate-parameters xmlns=\"urn:ieee:std:802.1Q:yang:ieee802-dot1q-sched\"></gate-parameters>\
                <bridge-port xmlns=\"urn:ieee:std:802.1Q:yang:ieee802-dot1q-bridge\"></bridge-port>\
                </interface>\
                </interfaces>"@,
            remote_systems_data: "<lldp xmlns=\"urn:ieee:std:802.1AB:yang:ieee802-dot1ab-lldp\">\
                <port>\
                <name></name>\
                <remote-systems-data></remote-systems-data>\
                </port>\
                </lldp>"@,
        }
    }

    /// The filters of the reference Bridge.
    pub fn load_br_filters() -> (r: Self)
        ensures
            r.deep_view() == Self::br_filters(),
    {
        SearchFilters {
            gate_parameters: String::from_str(
                "<interfaces xmlns=\"urn:ietf:params:xml:ns:yang:ietf-interfaces\">\
                <interface>\
                <gate-parameters xmlns=\"urn:ieee:std:802.1Q:yang:ieee802-dot1q-sched\"></gate-parameters>\
                </interface>\
                </interfaces>",
            ),
            gate_parameters_and_bridge_ports: String::from_str(
                "<interfaces xmlns=\"urn:ietf:params:xml:ns:yang:ietf-interfaces\">\
                <interface>\
                <gate-parameters xmlns=\"urn:ieee:std:802.1Q:yang:ieee802-dot1q-sched\"></gate-parameters>\
                <bridge-port xmlns=\"urn:ieee:std:802.1Q:yang:ieee802-dot1q-bridge\"></bridge-port>\
                </interface>\
                </interfaces>",
            ),
            remote_systems_data: String::from_str(
                "<lldp xmlns=\"urn:ieee:std:802.1AB:yang:ieee802-dot1ab-lldp\">\
                <port>\
                <name></name>\
                <remote-systems-data></remote-systems-data>\
                </port>\
                </lldp>",
            ),
        }
    }
}

/// Where each value stands in the YANG data of a Bridge.
///
/// Bridges differ in the revisions of the modules they implement; a Bridge that writes a path
/// otherwise is served by another value of this table.
#[derive(Debug)]
pub struct SwitchParameters {
    /// The list of interfaces.
    pub interfaces: String,
    /// One interface; `{}` stands for its name.
    pub interfaces_by_name: String,
    /// Gate parameters of an interface, below the interface.
    pub gate_parameters: String,
    pub gate_enabled: String,
    pub admin_gate_states: String,
    pub admin_control_list: String,
    /// One entry of the list; `{}` stands for its index.
    pub admin_control_list_by_index: String,
    pub operation_name: String,
    pub sgs_params_gate_states_value: String,
    pub sgs_params_time_interval_value: String,
    pub admin_control_list_length: String,
    pub admin_cycle_time_numerator: String,
    pub admin_cycle_time_denominator: String,
    pub admin_base_time_seconds: String,
    pub admin_base_time_fractional_seconds: String,
    pub admin_cycle_time_extension: String,
    pub config_change: String,
    pub tick_granularity: String,
    /// The list of neighbours of all ports.
    pub remote_systems_data: String,
    pub chassis_id_subtype: String,
    pub chassis_id: String,
    pub port_id_subtype: String,
    pub port_id: String,
    pub port_desc: String,
    pub system_name: String,
    pub system_description: String,
    pub system_capabilities_supported: String,
    pub system_capabilities_enabled: String,
    pub time_mark: String,
    pub remote_index: String,
    /// The list of management addresses of a neighbour.
    pub management_address: String,
    /// The key of a management address that holds its encoding.
    pub attrib_name_address_subtype: String,
    /// The key of a management address that holds the address.
    pub attrib_name_address: String,
    pub bridge_port: String,
    /// The MAC address of a port, below the interface.
    pub bridge_port_address: String,
    /// The list of delay records of a port, below the interface.
    pub bridge_port_delays: String,
    pub port_speed: String,
    pub dependent_rx_delay_min: String,
    pub dependent_rx_delay_max: String,
    pub independent_rx_delay_min: String,
    pub independent_rx_delay_max: String,
    pub independent_rly_delay_min: String,
    pub independent_rly_delay_max: String,
    pub independent_tx_delay_min: String,
    pub independent_tx_delay_max: String,
}

/// What a [`SwitchParameters`] holds, as a mathematical value.
pub struct SwitchParametersModel {
    pub interfaces: Seq<char>,
    pub interfaces_by_name: Seq<char>,
    pub gate_parameters: Seq<char>,
    pub gate_enabled: Seq<char>,
    pub admin_gate_states: Seq<char>,
    pub admin_control_list: Seq<char>,
    pub admin_control_list_by_index: Seq<char>,
    pub operation_name: Seq<char>,
    pub sgs_params_gate_states_value: Seq<char>,
    pub sgs_params_time_interval_value: Seq<char>,
    pub admin_control_list_length: Seq<char>,
    pub admin_cycle_time_numerator: Seq<char>,
    pub admin_cycle_time_denominator: Seq<char>,
    pub admin_base_time_seconds: Seq<char>,
    pub admin_base_time_fractional_seconds: Seq<char>,
    pub admin_cycle_time_extension: Seq<char>,
    pub config_change: Seq<char>,
    pub tick_granularity: Seq<char>,
    pub remote_systems_data: Seq<char>,
    pub chassis_id_subtype: Seq<char>,
    pub chassis_id: Seq<char>,
    pub port_id_subtype: Seq<char>,
    pub port_id: Seq<char>,
    pub port_desc: Seq<char>,
    pub system_name: Seq<char>,
    pub system_description: Seq<char>,
    pub system_capabilities_supported: Seq<char>,
    pub system_capabilities_enabled: Seq<char>,
    pub time_mark: Seq<char>,
    pub remote_index: Seq<char>,
    pub management_address: Seq<char>,
    pub attrib_name_address_subtype: Seq<char>,
    pub attrib_name_address: Seq<char>,
    pub bridge_port: Seq<char>,
    pub bridge_port_address: Seq<char>,
    pub bridge_port_delays: Seq<char>,
    pub port_speed: Seq<char>,
    pub dependent_rx_delay_min: Seq<char>,
    pub dependent_rx_delay_max: Seq<char>,
    pub independent_rx_delay_min: Seq<char>,
    pub independent_rx_delay_max: Seq<char>,
    pub independent_rly_delay_min: Seq<char>,
    pub independent_rly_delay_max: Seq<char>,
    pub independent_tx_delay_min: Seq<char>,
    pub independent_tx_delay_max: Seq<char>,
}

impl DeepView for SwitchParameters {
    type V = SwitchParametersModel;

    open spec fn deep_view(&self) -> SwitchParametersModel {
        SwitchParametersModel {
            interfaces: self.interfaces.deep_view(),
            interfaces_by_name: self.interfaces_by_name.deep_view(),
            gate_parameters: self.gate_parameters.deep_view(),
            gate_enabled: self.gate_enabled.deep_view(),
            admin_gate_states: self.admin_gate_states.deep_view(),
            admin_control_list: self.admin_control_list.deep_view(),
            admin_control_list_by_index: self.admin_control_list_by_index.deep_view(),
            operation_name: self.operation_name.deep_view(),
            sgs_params_gate_states_value: self.sgs_params_gate_states_value.deep_view(),
            sgs_params_time_interval_value: self.sgs_params_time_interval_value.deep_view(),
            admin_control_list_length: self.admin_control_list_length.deep_view(),
            admin_cycle_time_numerator: self.admin_cycle_time_numerator.deep_view(),
            admin_cycle_time_denominator: self.admin_cycle_time_denominator.deep_view(),
            admin_base_time_seconds: self.admin_base_time_seconds.deep_view(),
            admin_base_time_fractional_seconds: self.admin_base_time_fractional_seconds.deep_view(),
            admin_cycle_time_extension: self.admin_cycle_time_extension.deep_view(),
            config_change: self.config_change.deep_view(),
            tick_granularity: self.tick_granularity.deep_view(),
            remote_systems_data: self.remote_systems_data.deep_view(),
            chassis_id_subtype: self.chassis_id_subtype.deep_view(),
            chassis_id: self.chassis_id.deep_view(),
            port_id_subtype: self.port_id_subtype.deep_view(),
            port_id: self.port_id.deep_view(),
            port_desc: self.port_desc.deep_view(),
            system_name: self.system_name.deep_view(),
            system_description: self.system_description.deep_view(),
            system_capabilities_supported: self.system_capabilities_supported.deep_view(),
            system_capabilities_enabled: self.system_capabilities_enabled.deep_view(),
            time_mark: self.time_mark.deep_view(),
            remote_index: self.remote_index.deep_view(),
            management_address: self.management_address.deep_view(),
            attrib_name_address_subtype: self.attrib_name_address_subtype.deep_view(),
            attrib_name_address: self.attrib_name_address.deep_view(),
            bridge_port: self.bridge_port.deep_view(),
            bridge_port_address: self.bridge_port_address.deep_view(),
            bridge_port_delays: self.bridge_port_delays.deep_view(),
            port_speed: self.port_speed.deep_view(),
            dependent_rx_delay_min: self.dependent_rx_delay_min.deep_view(),
            dependent_rx_delay_max: self.dependent_rx_delay_max.deep_view(),
            independent_rx_delay_min: self.independent_rx_delay_min.deep_view(),
            independent_rx_delay_max: self.independent_rx_delay_max.deep_view(),
            independent_rly_delay_min: self.independent_rly_delay_min.deep_view(),
            independent_rly_delay_max: self.independent_rly_delay_max.deep_view(),
            independent_tx_delay_min: self.independent_tx_delay_min.deep_view(),
            independent_tx_delay_max: self.independent_tx_delay_max.deep_view(),
        }
    }
}

impl Clone for SwitchParameters {
    fn clone(&self) -> (r: Self)
        ensures
            r.deep_view() == self.deep_view(),
    {
        let interfaces = self.interfaces.clone();
        let interfaces_by_name = self.interfaces_by_name.clone();
        let gate_parameters = self.gate_parameters.clone();
        let gate_enabled = self.gate_enabled.clone();
        let admin_gate_states = self.admin_gate_states.clone();
        let admin_control_list = self.admin_control_list.clone();
        let admin_control_list_by_index = self.admin_control_list_by_index.clone();
        let operation_name = self.operation_name.clone();
        let sgs_params_gate_states_value = self.sgs_params_gate_states_value.clone();
        let sgs_params_time_interval_value = self.sgs_params_time_interval_value.clone();
        let admin_control_list_length = self.admin_control_list_length.clone();
        let admin_cycle_time_numerator = self.admin_cycle_time_numerator.clone();
        let admin_cycle_time_denominator = self.admin_cycle_time_denominator.clone();
        let admin_base_time_seconds = self.admin_base_time_seconds.clone();
        let admin_base_time_fractional_seconds = self.admin_base_time_fractional_seconds.clone();
        let admin_cycle_time_extension = self.admin_cycle_time_extension.clone();
        let config_change = self.config_change.clone();
        let tick_granularity = self.tick_granularity.clone();
        let remote_systems_data = self.remote_systems_data.clone();
        let chassis_id_subtype = self.chassis_id_subtype.clone();
        let chassis_id = self.chassis_id.clone();
        let port_id_subtype = self.port_id_subtype.clone();
        let port_id = self.port_id.clone();
        let port_desc = self.port_desc.clone();
        let system_name = self.system_name.clone();
        let system_description = self.system_description.clone();
        let system_capabilities_supported = self.system_capabilities_supported.clone();
        let system_capabilities_enabled = self.system_capabilities_enabled.clone();
        let time_mark = self.time_mark.clone();
        let remote_index = self.remote_index.clone();
        let management_address = self.management_address.clone();
        let attrib_name_address_subtype = self.attrib_name_address_subtype.clone();
        let attrib_name_address = self.attrib_name_address.clone();
        let bridge_port = self.bridge_port.clone();
        let bridge_port_address = self.bridge_port_address.clone();
        let bridge_port_delays = self.bridge_port_delays.clone();
        let port_speed = self.port_speed.clone();
        let dependent_rx_delay_min = self.dependent_rx_delay_min.clone();
        let dependent_rx_delay_max = self.dependent_rx_delay_max.clone();
        let independent_rx_delay_min = self.independent_rx_delay_min.clone();
        let independent_rx_delay_max = self.independent_rx_delay_max.clone();
        let independent_rly_delay_min = self.independent_rly_delay_min.clone();
        let independent_rly_delay_max = self.independent_rly_delay_max.clone();
        let independent_tx_delay_min = self.independent_tx_delay_min.clone();
        let independent_tx_delay_max = self.independent_tx_delay_max.clone();
        SwitchParameters {
            interfaces,
            interfaces_by_name,
            gate_parameters,
            gate_enabled,
            admin_gate_states,
            admin_control_list,
            admin_control_list_by_index,
            operation_name,
            sgs_params_gate_states_value,
            sgs_params_time_interval_value,
            admin_control_list_length,
            admin_cycle_time_numerator,
            admin_cycle_time_denominator,
            admin_base_time_seconds,
            admin_base_time_fractional_seconds,
            admin_cycle_time_extension,
            config_change,
            tick_granularity,
            remote_systems_data,
            chassis_id_subtype,
            chassis_id,
            port_id_subtype,
            port_id,
            port_desc,
            system_name,
            system_description,
            system_capabilities_supported,
            system_capabilities_enabled,
            time_mark,
            remote_index,
            management_address,
            attrib_name_address_subtype,
            attrib_name_address,
            bridge_port,
            bridge_port_address,
            bridge_port_delays,
            port_speed,
            dependent_rx_delay_min,
            dependent_rx_delay_max,
            independent_rx_delay_min,
            independent_rx_delay_max,
            independent_rly_delay_min,
            independent_rly_delay_max,
            independent_tx_delay_min,
            independent_tx_delay_max,
        }
    }
}

impl SwitchParameters {
    /// The paths of the reference Bridge, as a mathematical value.
    pub open spec fn br_paths() -> SwitchParametersModel {
        SwitchParametersModel {
            interfaces: "ietf-interfaces:interfaces/interface"@,
            interfaces_by_name: "ietf-interfaces:interfaces/interface[name='{}']"@,
            gate_parameters: "ieee802-dot1q-sched:gate-parameters"@,
            gate_enabled: "gate-enabled"@,
            admin_gate_states: "admin-gate-states"@,
            admin_control_list: "admin-control-list"@,
            admin_control_list_by_index: "admin-control-list[index={}]"@,
            operation_name: "operation-name"@,
            sgs_params_gate_states_value: "sgs-params/gate-states-value"@,
            sgs_params_time_interval_value: "sgs-params/time-interval-value"@,
            admin_control_list_length: "admin-control-list-length"@,
            admin_cycle_time_numerator: "admin-cycle-time/numerator"@,
            admin_cycle_time_denominator: "admin-cycle-time/denominator"@,
            admin_base_time_seconds: "admin-base-time/seconds"@,
            admin_base_time_fractional_seconds: "admin-base-time/fractional-seconds"@,
            admin_cycle_time_extension: "admin-cycle-time-extension"@,
            config_change: "config-change"@,
            tick_granularity: "tick-granularity"@,
            remote_systems_data: "ieee802-dot1ab-lldp:lldp/port/remote-systems-data"@,
            chassis_id_subtype: "chassis-id-subtype"@,
            chassis_id: "chassis-id"@,
            port_id_subtype: "port-id-subtype"@,
            port_id: "port-id"@,
            port_desc: "port-desc"@,
            system_name: "system-name"@,
            system_description: "system-description"@,
            system_capabilities_supported: "system-capabilities-supported"@,
            system_capabilities_enabled: "system-capabilities-enabled"@,
            time_mark: "time-mark"@,
            remote_index: "remote-index"@,
            management_address: "management-address"@,
            attrib_name_address_subtype: "address-type"@,
            attrib_name_address: "address"@,
            bridge_port: "ieee802-dot1q-bridge:bridge/bridge-ports"@,
            bridge_port_address: "bridge-port/address"@,
            bridge_port_delays: "bridge-port/bridge-port-delays"@,
            port_speed: "port-speed"@,
            dependent_rx_delay_min: "dependentRxDelayMin"@,
            dependent_rx_delay_max: "dependentRxDelayMax"@,
            independent_rx_delay_min: "independentRxDelayMin"@,
            independent_rx_delay_max: "independentRxDelayMax"@,
            independent_rly_delay_min: "independentRlyDelayMin"@,
            independent_rly_delay_max: "independentRlyDelayMax"@,
            independent_tx_delay_min: "independentTxDelayMin"@,
            independent_tx_delay_max: "independentTxDelayMax"@,
        }
    }

    /// The paths of the reference Bridge.
    pub fn load_br_paths() -> (r: Self)
        ensures
            r.deep_view() == Self::br_paths(),
    {
        SwitchParameters {
            // ietf-interfaces
            interfaces: String::from_str("ietf-interfaces:interfaces/interface"),
            interfaces_by_name: String::from_str("ietf-interfaces:interfaces/interface[name='{}']"),
            // ieee802-dot1q-sched
            gate_parameters: String::from_str("ieee802-dot1q-sched:gate-parameters"),
            gate_enabled: String::from_str("gate-enabled"),
            admin_gate_states: String::from_str("admin-gate-states"),
            admin_control_list: String::from_str("admin-control-list"),
            admin_control_list_by_index: String::from_str("admin-control-list[index={}]"),
            operation_name: String::from_str("operation-name"),
            sgs_params_gate_states_value: String::from_str("sgs-params/gate-states-value"),
            sgs_params_time_interval_value: String::from_str("sgs-params/time-interval-value"),
            admin_control_list_length: String::from_str("admin-control-list-length"),
            admin_cycle_time_numerator: String::from_str("admin-cycle-time/numerator"),
            admin_cycle_time_denominator: String::from_str("admin-cycle-time/denominator"),
            admin_base_time_seconds: String::from_str("admin-base-time/seconds"),
            admin_base_time_fractional_seconds: String::from_str("admin-base-time/fractional-seconds"),
            admin_cycle_time_extension: String::from_str("admin-cycle-time-extension"),
            config_change: String::from_str("config-change"),
            tick_granularity: String::from_str("tick-granularity"),
            // ieee802-dot1ab-lldp
            remote_systems_data: String::from_str("ieee802-dot1ab-lldp:lldp/port/remote-systems-data"),
            chassis_id_subtype: String::from_str("chassis-id-subtype"),
            chassis_id: String::from_str("chassis-id"),
            port_id_subtype: String::from_str("port-id-subtype"),
            port_id: String::from_str("port-id"),
            port_desc: String::from_str("port-desc"),
            system_name: String::from_str("system-name"),
            system_description: String::from_str("system-description"),
            system_capabilities_supported: String::from_str("system-capabilities-supported"),
            system_capabilities_enabled: String::from_str("system-capabilities-enabled"),
            time_mark: String::from_str("time-mark"),
            remote_index: String::from_str("remote-index"),
            management_address: String::from_str("management-address"),
            attrib_name_address_subtype: String::from_str("address-type"),
            attrib_name_address: String::from_str("address"),
            // ieee802-dot1q-bridge
            bridge_port: String::from_str("ieee802-dot1q-bridge:bridge/bridge-ports"),
            bridge_port_address: String::from_str("bridge-port/address"),
            // ieee802-dot1q-bridge-delays
            bridge_port_delays: String::from_str("bridge-port/bridge-port-delays"),
            port_speed: String::from_str("port-speed"),
            dependent_rx_delay_min: String::from_str("dependentRxDelayMin"),
            dependent_rx_delay_max: String::from_str("dependentRxDelayMax"),
            independent_rx_delay_min: String::from_str("independentRxDelayMin"),
            independent_rx_delay_max: String::from_str("independentRxDelayMax"),
            independent_rly_delay_min: String::from_str("independentRlyDelayMin"),
            independent_rly_delay_max: String::from_str("independentRlyDelayMax"),
            independent_tx_delay_min: String::from_str("independentTxDelayMin"),
            independent_tx_delay_max: String::from_str("independentTxDelayMax"),
        }
    }
}

/// Everything the controller needs to know to find its way in the data of a Bridge.
#[derive(Debug)]
pub struct YangPaths {
    pub filters: SearchFilters,
    pub params: SwitchParameters,
}

/// What a [`YangPaths`] holds, as a mathematical value.
pub struct YangPathsModel {
    pub filters: SearchFiltersModel,
    pub params: SwitchParametersModel,
}

impl DeepView for YangPaths {
    type V = YangPathsModel;

    open spec fn deep_view(&self) -> YangPathsModel {
        YangPathsModel {
            filters: self.filters.deep_view(),
            params: self.params.deep_view(),
        }
    }
}

impl Clone for YangPaths {
    fn clone(&self) -> (r: Self)
        ensures
            r.deep_view() == self.deep_view(),
    {
        let filters = self.filters.clone();
        let params = self.params.clone();
        YangPaths { filters, params }
    }
}

impl YangPaths {
    /// The filters and paths for a Bridge that implements `_yang_modules`. Every Bridge gets
    /// those of the reference Bridge.
    pub fn load_paths(_yang_modules: &Vec<YangModule>) -> (r: Self)
        ensures
            r.deep_view() == (YangPathsModel {
                filters: SearchFilters::br_filters(),
                params: SwitchParameters::br_paths(),
            }),
    {
        YangPaths {
            filters: SearchFilters::load_br_filters(),
            params: SwitchParameters::load_br_paths(),
        }
    }
}

} // verus!
