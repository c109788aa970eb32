use ba::cnc::scheduling::MockTSNScheduler;
use ba::cnc::southbound::configure::{
    copy_without_repeats, new_failure, ConfigurationRun, SessionAction,
};
use ba::cnc::southbound::mock::MockSouthbound;
use ba::cnc::southbound::netconf::{
    extract_port_delays, extract_remote_systems_data, put_configurations_in_dtree,
    put_gate_parameters_in_dtree, query_port_delays, query_remote_systems, DataLeaf, DataList,
    DataNode, DataRecord, DataValue, TreeEdit,
};
use ba::cnc::southbound::text::{decimal_text, fill, join, signed_decimal_text, truth_text};
use ba::cnc::southbound::types::{
    yang_modules, SearchFilters, SwitchParameters, YangModule, YangPaths,
};
use ba::cnc::southbound::xpath::{
    extract_interface_name_from_xpath, extract_last_node_name_from_xpath, find_char, find_marker,
    parse_predicate, parse_predicates, text_after, text_before, text_without,
};
use ba::cnc::southbound::SouthboundAdapterInterface;
use ba::cnc::topology::{find_node_id_from_mac, MockTopology, TopologyAdapterInterface};
use ba::cnc::types::sched_types::{
    ConfigurableGateParameterTableEntry, GateControlEntry, GateControlOperation,
};
use ba::cnc::types::scheduling::{PortConfiguration, Schedule};
use ba::cnc::types::topology::Topology;

fn paths() -> YangPaths {
    YangPaths::load_paths(&yang_modules())
}

fn example_port() -> PortConfiguration {
    PortConfiguration {
        name: String::from("sw0p2"),
        mac_address: String::from("00-60-65-82-c9-5b"),
        config: ConfigurableGateParameterTableEntry {
            gate_enable: true,
            admin_gate_states: 255,
            admin_control_list: vec![GateControlEntry {
                operation_name: GateControlOperation::SetGateStates,
                time_interval_value: 320000,
                gate_state_value: 255,
            }],
            admin_cycle_time: (320000, 1_000_000_000),
            admin_cycle_time_extension: 0,
            admin_base_time: (0, 0),
            config_change: true,
        },
    }
}

fn as_pairs(edits: &Vec<TreeEdit>) -> Vec<(String, Option<String>)> {
    edits
        .iter()
        .map(|e| match e {
            TreeEdit::Put { path, value } => (path.clone(), Some(value.clone())),
            TreeEdit::Remove { path } => (path.clone(), None),
        })
        .collect()
}

fn put(path: &str, value: &str) -> (String, Option<String>) {
    (
        format!("/ietf-interfaces:interfaces/interface[name='sw0p2']/ieee802-dot1q-sched:gate-parameters/{}", path),
        Some(String::from(value)),
    )
}

#[test]
fn gate_parameter_edit_materialization() {
    let mut edits: Vec<TreeEdit> = Vec::new();
    put_configurations_in_dtree(&mut edits, &paths(), &example_port());
    assert_eq!(
        as_pairs(&edits),
        vec![
            put("gate-enabled", "true"),
            put("admin-gate-states", "255"),
            put(
                "admin-control-list[index=0]/operation-name",
                "set-gate-states"
            ),
            put(
                "admin-control-list[index=0]/sgs-params/gate-states-value",
                "255"
            ),
            put(
                "admin-control-list[index=0]/sgs-params/time-interval-value",
                "320000"
            ),
            put("admin-control-list-length", "1"),
            put("admin-cycle-time/numerator", "320000"),
            put("admin-cycle-time/denominator", "1000000000"),
            put("admin-base-time/seconds", "0"),
            put("admin-base-time/fractional-seconds", "0"),
            put("admin-cycle-time-extension", "0"),
            put("config-change", "true"),
        ]
    );
}

#[test]
fn an_empty_control_list_removes_the_list() {
    let mut port = example_port();
    port.config.admin_control_list.clear();
    port.config.gate_enable = false;
    port.config.config_change = false;
    port.config.admin_cycle_time = (-5, 7);
    port.config.admin_base_time = (18446744073709551615, 4294967295);
    let mut edits: Vec<TreeEdit> = vec![TreeEdit::Remove {
        path: String::from("/kept"),
    }];
    put_configurations_in_dtree(&mut edits, &paths(), &port);
    let pairs = as_pairs(&edits);
    assert_eq!(pairs[0], (String::from("/kept"), None));
    assert_eq!(pairs[1], put("gate-enabled", "false"));
    assert_eq!(
        pairs[3],
        (
            String::from(
                "/ietf-interfaces:interfaces/interface[name='sw0p2']/ieee802-dot1q-sched:gate-parameters/admin-control-list"
            ),
            None
        )
    );
    assert_eq!(pairs[4], put("admin-control-list-length", "0"));
    assert_eq!(pairs[5], put("admin-cycle-time/numerator", "-5"));
    assert_eq!(pairs[6], put("admin-cycle-time/denominator", "7"));
    assert_eq!(
        pairs[7],
        put("admin-base-time/seconds", "18446744073709551615")
    );
    assert_eq!(
        pairs[8],
        put("admin-base-time/fractional-seconds", "4294967295")
    );
    assert_eq!(pairs[10], put("config-change", "true"));
    assert_eq!(pairs.len(), 11);
}

#[test]
fn control_list_entries_are_written_in_order() {
    let mut port = example_port();
    port.config.admin_control_list = vec![
        GateControlEntry {
            operation_name: GateControlOperation::SetAndHoldMAC,
            time_interval_value: 1,
            gate_state_value: 2,
        },
        GateControlEntry {
            operation_name: GateControlOperation::SetAndReleaseMAC,
            time_interval_value: 4294967295,
            gate_state_value: 0,
        },
    ];
    let mut edits: Vec<TreeEdit> = Vec::new();
    put_configurations_in_dtree(&mut edits, &paths(), &port);
    let pairs = as_pairs(&edits);
    assert_eq!(
        pairs[2],
        put(
            "admin-control-list[index=0]/operation-name",
            "set-and-hold-mac"
        )
    );
    assert_eq!(
        pairs[3],
        put(
            "admin-control-list[index=0]/sgs-params/gate-states-value",
            "2"
        )
    );
    assert_eq!(
        pairs[4],
        put(
            "admin-control-list[index=0]/sgs-params/time-interval-value",
            "1"
        )
    );
    assert_eq!(
        pairs[5],
        put(
            "admin-control-list[index=1]/operation-name",
            "set-and-release-mac"
        )
    );
    assert_eq!(
        pairs[6],
        put(
            "admin-control-list[index=1]/sgs-params/gate-states-value",
            "0"
        )
    );
    assert_eq!(
        pairs[7],
        put(
            "admin-control-list[index=1]/sgs-params/time-interval-value",
            "4294967295"
        )
    );
    assert_eq!(pairs[8], put("admin-control-list-length", "2"));
}

#[test]
fn put_gate_parameters_joins_with_a_slash() {
    let mut edits: Vec<TreeEdit> = Vec::new();
    put_gate_parameters_in_dtree(&mut edits, &String::from("/a/b"), "c", "1");
    assert_eq!(
        as_pairs(&edits),
        vec![(String::from("/a/b/c"), Some(String::from("1")))]
    );
}

fn text_leaf(path: &str, value: &str) -> DataLeaf {
    DataLeaf {
        path: String::from(path),
        value: Some(DataValue::Other(String::from(value))),
    }
}

fn u32_leaf(path: &str, value: u32) -> DataLeaf {
    DataLeaf {
        path: String::from(path),
        value: Some(DataValue::Uint32(value)),
    }
}

fn u64_leaf(path: &str, value: u64) -> DataLeaf {
    DataLeaf {
        path: String::from(path),
        value: Some(DataValue::Uint64(value)),
    }
}

fn address_record(subtype: &str, address: &str) -> DataRecord {
    DataRecord {
        path: format!(
            "/ieee802-dot1ab-lldp:lldp/port[name='sw0p1']/remote-systems-data[time-mark='42'][remote-index='7']/management-address[address-type='{}'][address='{}']",
            subtype, address
        ),
        leaves: Vec::new(),
    }
}

#[test]
fn lldp_extraction() {
    let node = DataNode {
        path: String::from(
            "/ieee802-dot1ab-lldp:lldp/port[name='sw0p1']/remote-systems-data[time-mark='42'][remote-index='7']",
        ),
        leaves: vec![
            text_leaf("chassis-id", "aa-bb-cc-dd-ee-ff"),
            text_leaf("port-id", "1"),
            u32_leaf("time-mark", 42),
            u32_leaf("remote-index", 7),
        ],
        lists: vec![DataList {
            path: String::from("management-address"),
            records: vec![address_record("ipv4", "10.0.0.1"), address_record("ipv4", "10.0.0.2")],
        }],
    };
    let systems = extract_remote_systems_data(&vec![node], &paths());
    assert_eq!(systems.len(), 1);
    let system = &systems[0];
    assert_eq!(system.chassis_id, "aa-bb-cc-dd-ee-ff");
    assert_eq!(system.port_id, "1");
    assert_eq!(system.time_mark, 42);
    assert_eq!(system.remote_index, 7);
    assert_eq!(system.chassis_id_subtype, "");
    assert_eq!(system.system_name, "");
    assert_eq!(system.management_address.len(), 2);
    assert_eq!(system.management_address[0].address_subtype, "ipv4");
    assert_eq!(system.management_address[0].address, "10.0.0.1");
    assert_eq!(system.management_address[1].address_subtype, "ipv4");
    assert_eq!(system.management_address[1].address, "10.0.0.2");
    assert_eq!(system.management_address[1].if_id, 0);
    assert!(system.remote_unknown_tlv.is_empty());
    assert!(system.remote_org_defined_info.is_empty());
}

#[test]
fn a_value_of_another_type_leaves_the_field_empty() {
    let node = DataNode {
        path: String::from("/x"),
        leaves: vec![
            u32_leaf("chassis-id", 5),
            text_leaf("time-mark", "42"),
            DataLeaf {
                path: String::from("port-id"),
                value: None,
            },
            text_leaf("system-name", "first"),
            text_leaf("system-name", "second"),
        ],
        lists: Vec::new(),
    };
    let systems = extract_remote_systems_data(&vec![node], &paths());
    assert_eq!(systems[0].chassis_id, "");
    assert_eq!(systems[0].time_mark, 0);
    assert_eq!(systems[0].port_id, "");
    assert_eq!(systems[0].system_name, "first");
    assert!(systems[0].management_address.is_empty());
    assert!(extract_remote_systems_data(&Vec::new(), &paths()).is_empty());
}

#[test]
fn port_delay_extraction() {
    let speed = |mbit: u32, base: u64| {
        DataRecord {
        path: format!("/ietf-interfaces:interfaces/interface[name='sw0p3']/bridge-port/bridge-port-delays[port-speed='{}']", mbit),
        leaves: vec![
            u32_leaf("port-speed", mbit),
            u64_leaf("dependentRxDelayMin", base + 1),
            u64_leaf("dependentRxDelayMax", base + 2),
            u64_leaf("independentRxDelayMin", base + 3),
            u64_leaf("independentRxDelayMax", base + 4),
            u64_leaf("independentRlyDelayMin", base + 5),
            u64_leaf("independentRlyDelayMax", base + 6),
            u64_leaf("independentTxDelayMin", base + 7),
            u64_leaf("independentTxDelayMax", base + 8),
        ],
    }
    };
    let node = DataNode {
        path: String::from("/ietf-interfaces:interfaces/interface[name='sw0p3']"),
        leaves: vec![
            text_leaf("bridge-port/address", "00-60-65-82-c9-5c"),
            u32_leaf("tick-granularity", 10),
        ],
        lists: vec![DataList {
            path: String::from("bridge-port/bridge-port-delays"),
            records: vec![speed(100, 1000), speed(1000, 2000)],
        }],
    };
    let bare = DataNode {
        path: String::from("/ietf-interfaces:interfaces/interface[name='lo']"),
        leaves: Vec::new(),
        lists: Vec::new(),
    };
    let ports = extract_port_delays(&vec![node, bare], &paths());
    assert_eq!(ports.len(), 2);
    assert_eq!(ports[0].name, "sw0p3");
    assert_eq!(ports[0].mac_address, "00-60-65-82-c9-5c");
    assert_eq!(ports[0].tick_granularity, 10);
    assert_eq!(ports[0].delays.len(), 2);
    assert_eq!(ports[0].delays[0].port_speed, 100);
    assert_eq!(ports[0].delays[0].dependent_rx_delay_min, 1001);
    assert_eq!(ports[0].delays[0].dependent_rx_delay_max, 1002);
    assert_eq!(ports[0].delays[0].independent_rx_delay_min, 1003);
    assert_eq!(ports[0].delays[0].independent_rx_delay_max, 1004);
    assert_eq!(ports[0].delays[0].independent_rly_delay_min, 1005);
    assert_eq!(ports[0].delays[0].independent_rly_delay_max, 1006);
    assert_eq!(ports[0].delays[0].independent_tx_delay_min, 1007);
    assert_eq!(ports[0].delays[0].independent_tx_delay_max, 1008);
    assert_eq!(ports[0].delays[1].port_speed, 1000);
    assert_eq!(ports[0].delays[1].independent_tx_delay_max, 2008);
    assert_eq!(ports[1].name, "lo");
    assert_eq!(ports[1].mac_address, "");
    assert_eq!(ports[1].tick_granularity, 0);
    assert!(ports[1].delays.is_empty());
}

#[test]
fn queries_name_what_is_read() {
    let lldp = query_remote_systems(&paths());
    assert_eq!(
        lldp.root,
        "/ieee802-dot1ab-lldp:lldp/port/remote-systems-data"
    );
    assert_eq!(lldp.leaves.len(), 11);
    assert_eq!(lldp.leaves[0], "chassis-id-subtype");
    assert_eq!(lldp.leaves[10], "remote-index");
    assert_eq!(lldp.lists.len(), 1);
    assert_eq!(lldp.lists[0].path, "management-address");
    assert!(lldp.lists[0].leaves.is_empty());

    let ports = query_port_delays(&paths());
    assert_eq!(ports.root, "/ietf-interfaces:interfaces/interface");
    assert_eq!(
        ports.leaves,
        vec!["bridge-port/address", "tick-granularity"]
    );
    assert_eq!(ports.lists[0].path, "bridge-port/bridge-port-delays");
    assert_eq!(ports.lists[0].leaves.len(), 9);
    assert_eq!(ports.lists[0].leaves[0], "port-speed");
    assert_eq!(ports.lists[0].leaves[8], "independentTxDelayMax");
}

#[test]
fn interface_name_from_xpath() {
    assert_eq!(
        extract_interface_name_from_xpath(
            "/ietf-interfaces:interfaces/interface[name='eth0']/ieee802-dot1q-sched:gate-parameters"
        ),
        "eth0"
    );
    assert_eq!(
        extract_interface_name_from_xpath("interface[name='a']/interface[name='b']"),
        "b"
    );
    assert_eq!(
        extract_interface_name_from_xpath("interface[name='open"),
        "open"
    );
    assert_eq!(
        extract_interface_name_from_xpath("no marker']x"),
        "no marker"
    );
    assert_eq!(extract_interface_name_from_xpath(""), "");
}

#[test]
fn last_node_name_from_xpath() {
    assert_eq!(
        extract_last_node_name_from_xpath(&String::from(
            "/ieee802-dot1ab-lldp:lldp/port/remote-systems-data"
        )),
        "remote-systems-data"
    );
    assert_eq!(
        extract_last_node_name_from_xpath(&String::from("plain")),
        "plain"
    );
    assert_eq!(
        extract_last_node_name_from_xpath(&String::from("ends/")),
        ""
    );
    assert_eq!(extract_last_node_name_from_xpath(&String::from("")), "");
}

#[test]
fn predicates_of_a_node_name() {
    let pairs = parse_predicates("management-address[address-type='ipv4'][address='10.0.0.1']");
    assert_eq!(
        pairs,
        vec![
            (String::from("address-type"), String::from("ipv4")),
            (String::from("address"), String::from("10.0.0.1")),
        ]
    );
    assert!(parse_predicates("management-address").is_empty());
    assert!(parse_predicates("").is_empty());
    assert_eq!(
        parse_predicates("a[k=v][novalue][x='y=z']rest"),
        vec![
            (String::from("k"), String::from("v")),
            (String::from("x"), String::from("y=z")),
        ]
    );
    assert_eq!(
        parse_predicate("name[key='value'"),
        Some((String::from("key"), String::from("value")))
    );
    assert_eq!(parse_predicate("key='value'"), None);
    assert_eq!(parse_predicate("[key"), None);
}

#[test]
fn text_around_characters() {
    assert_eq!(find_char("abc", 'b'), 1);
    assert_eq!(find_char("abc", 'x'), 3);
    assert_eq!(text_before("key=value=more", '='), "key");
    assert_eq!(text_after("key=value=more", '='), "value=more");
    assert_eq!(text_before("none", '='), "none");
    assert_eq!(text_after("none", '='), "");
    assert_eq!(text_without("'a''b'", '\''), "ab");
    assert_eq!(find_marker("hello world", "o w"), Some(4));
    assert_eq!(find_marker("hello", "lo"), Some(3));
    assert_eq!(find_marker("hello", "xyz"), None);
    assert_eq!(find_marker("hi", "longer"), None);
    assert_eq!(find_marker("hi", ""), Some(0));
}

#[test]
fn numbers_and_templates_as_text() {
    assert_eq!(decimal_text(0), "0");
    assert_eq!(decimal_text(9), "9");
    assert_eq!(decimal_text(10), "10");
    assert_eq!(decimal_text(320000), "320000");
    assert_eq!(decimal_text(u64::MAX), "18446744073709551615");
    assert_eq!(signed_decimal_text(0), "0");
    assert_eq!(signed_decimal_text(-1), "-1");
    assert_eq!(signed_decimal_text(i32::MIN), "-2147483648");
    assert_eq!(signed_decimal_text(i32::MAX), "2147483647");
    assert_eq!(truth_text(true), "true");
    assert_eq!(truth_text(false), "false");
    assert_eq!(
        fill("interface[name='{}']", "eth0"),
        "interface[name='eth0']"
    );
    assert_eq!(fill("{}{}-{", "ab"), "abab-{");
    assert_eq!(fill("none", "x"), "none");
    assert_eq!(fill("", "x"), "");
    assert_eq!(join("a", "b"), "a/b");
}

#[test]
fn paths_of_the_reference_bridge() {
    let params = SwitchParameters::load_br_paths();
    assert_eq!(
        params.interfaces_by_name,
        "ietf-interfaces:interfaces/interface[name='{}']"
    );
    assert_eq!(
        params.gate_parameters,
        "ieee802-dot1q-sched:gate-parameters"
    );
    assert_eq!(
        params.admin_control_list_by_index,
        "admin-control-list[index={}]"
    );
    assert_eq!(params.attrib_name_address_subtype, "address-type");
    assert_eq!(params.independent_tx_delay_max, "independentTxDelayMax");
    let filters = SearchFilters::load_br_filters();
    assert!(filters
        .gate_parameters
        .starts_with("<interfaces xmlns=\"urn:ietf:params:xml:ns:yang:ietf-interfaces\">"));
    assert!(filters
        .gate_parameters_and_bridge_ports
        .contains("<bridge-port xmlns=\"urn:ieee:std:802.1Q:yang:ieee802-dot1q-bridge\">"));
    assert!(filters.remote_systems_data.ends_with("</lldp>"));
    let both = paths();
    assert_eq!(
        both.params.remote_systems_data,
        "ieee802-dot1ab-lldp:lldp/port/remote-systems-data"
    );
    assert_eq!(
        both.filters.remote_systems_data,
        filters.remote_systems_data
    );
}

#[test]
fn yang_modules_of_the_reference_bridge() {
    let modules = yang_modules();
    assert_eq!(modules.len(), 12);
    assert_eq!(modules[0].name, "ietf-interfaces");
    assert_eq!(modules[0].revision, Some("2018-02-20"));
    assert_eq!(modules[0].features, &["if-mib"]);
    assert_eq!(modules[8].name, "ieee802-dot1q-sched");
    assert_eq!(modules[8].features, &["scheduled-traffic"]);
    assert_eq!(modules[11].name, "ieee802-dot1ab-lldp");
    assert!(modules[1].features.is_empty());
    let plain = YangModule::new("a", "2020-01-01");
    assert_eq!(
        (plain.name, plain.revision, plain.features.len()),
        ("a", Some("2020-01-01"), 0)
    );
    let featured = YangModule::new_with_features("b", "2021-01-01", &["x", "y"]);
    assert_eq!(featured.features, &["x", "y"]);
}

fn mock_schedule(topology: &Topology) -> Schedule {
    let bridges: Vec<u32> = topology
        .nodes
        .iter()
        .filter(|n| n.id < 10)
        .map(|n| n.id)
        .collect();
    MockTSNScheduler::new().parse_to_schedule(bridges, topology)
}

fn describe(action: &SessionAction) -> String {
    match action {
        SessionAction::Connect { node_id, params } => format!("connect {} {}", node_id, params.ip),
        SessionAction::EditPort { node_id, port } => format!("edit {} {}", node_id, port.name),
        SessionAction::Commit { node_id } => format!("commit {}", node_id),
        SessionAction::Close { node_id } => format!("close {}", node_id),
        SessionAction::Finished => String::from("finished"),
    }
}

/// Drives a run with the outcomes that `outcome` gives for each action.
fn drive(run: &mut ConfigurationRun, outcome: &dyn Fn(&SessionAction) -> bool) -> Vec<String> {
    let mut log = Vec::new();
    loop {
        let action = run.next_action();
        log.push(describe(&action));
        if let SessionAction::Finished = action {
            assert!(run.is_finished());
            return log;
        }
        run.record(outcome(&action));
    }
}

#[test]
fn a_run_commits_when_every_port_was_edited() {
    let topology = MockTopology::new_failing().get_topology();
    let mut run = ConfigurationRun::new(&topology, &mock_schedule(&topology));
    let log = drive(&mut run, &|_| true);
    assert_eq!(
        log,
        vec![
            "connect 1 10.2.0.1",
            "edit 1 sw0p2",
            "edit 1 sw0p3",
            "edit 1 sw0p4",
            "connect 2 10.2.0.2",
            "edit 2 sw0p2",
            "edit 2 sw0p3",
            "commit 1",
            "close 1",
            "commit 2",
            "close 2",
            "finished",
        ]
    );
    assert!(run.failed_interfaces().interfaces.is_empty());
    assert!(run.uncommitted_interfaces().interfaces.is_empty());
}

#[test]
fn a_failed_edit_rules_out_every_commit() {
    let topology = MockTopology::new_failing().get_topology();
    let mut run = ConfigurationRun::new(&topology, &mock_schedule(&topology));
    let log = drive(
        &mut run,
        &|action| !matches!(action, SessionAction::EditPort { port, .. } if port.name == "sw0p3"),
    );
    assert!(!log.iter().any(|entry| entry.starts_with("commit")));
    assert_eq!(log[log.len() - 3..], ["close 1", "close 2", "finished"]);
    let failed = run.failed_interfaces().interfaces;
    let names: Vec<(u32, &str)> = failed
        .iter()
        .map(|f| (f.node_id, f.interface.interface_name.as_str()))
        .collect();
    assert_eq!(names, vec![(1, "sw0p3"), (2, "sw0p3")]);
    let uncommitted = run.uncommitted_interfaces().interfaces;
    let names: Vec<(u32, &str)> = uncommitted
        .iter()
        .map(|f| (f.node_id, f.interface.interface_name.as_str()))
        .collect();
    assert_eq!(names, vec![(1, "sw0p2"), (1, "sw0p4"), (2, "sw0p2")]);
    let result = run.result();
    assert_eq!(result.failed_interfaces.interfaces.len(), 2);
    assert_eq!(result.uncommitted_interfaces.interfaces.len(), 3);
    assert_eq!(failed[0].interface.mac_address, "00-60-65-82-c9-5c");
    assert_eq!(
        failed[0].affected_streams,
        vec!["00-00-00-00-00-01:00-01", "00-00-00-00-00-02:00-03"]
    );
}

#[test]
fn a_failed_commit_fails_the_ports_of_that_bridge_only() {
    let topology = MockTopology::new_failing().get_topology();
    let mut run = ConfigurationRun::new(&topology, &mock_schedule(&topology));
    let log = drive(&mut run, &|action| {
        !matches!(action, SessionAction::Commit { node_id: 2 })
    });
    assert_eq!(
        log[log.len() - 5..],
        ["commit 1", "close 1", "commit 2", "close 2", "finished"]
    );
    let failed = run.failed_interfaces().interfaces;
    let names: Vec<(u32, &str)> = failed
        .iter()
        .map(|f| (f.node_id, f.interface.interface_name.as_str()))
        .collect();
    assert_eq!(names, vec![(2, "sw0p2"), (2, "sw0p3")]);
}

#[test]
fn a_bridge_without_parameters_fails_without_an_action() {
    let mut topology = MockTopology::new_failing().get_topology();
    topology.nodes[0].configuration_params = None;
    topology.nodes.remove(1);
    let mut run = ConfigurationRun::new(&topology, &mock_schedule_of_both());
    assert!(run.is_finished());
    assert_eq!(drive(&mut run, &|_| true), vec!["finished"]);
    assert_eq!(run.failed_interfaces().interfaces.len(), 5);

    let mut empty = ConfigurationRun::new(
        &topology,
        &Schedule {
            configs: Vec::new(),
        },
    );
    assert!(empty.is_finished());
    assert_eq!(drive(&mut empty, &|_| true), vec!["finished"]);
    assert!(empty.failed_interfaces().interfaces.is_empty());
}

fn mock_schedule_of_both() -> Schedule {
    MockTSNScheduler::new()
        .parse_to_schedule(vec![2, 1], &MockTopology::new_failing().get_topology())
}

#[test]
fn failures_name_each_stream_once() {
    let mut config = mock_schedule_of_both().configs.remove(0);
    config.affected_streams = vec![
        String::from("b"),
        String::from("a"),
        String::from("b"),
        String::from("a"),
        String::from("c"),
    ];
    let failure = new_failure(&config);
    assert_eq!(failure.affected_streams, vec!["b", "a", "c"]);
    assert_eq!(failure.node_id, 1);
    assert_eq!(failure.interface.interface_name, "sw0p2");
    assert_eq!(copy_without_repeats(&Vec::new()), Vec::<String>::new());
}

#[test]
fn mock_schedule_per_bridge() {
    let scheduler = MockTSNScheduler::new();
    let topology = MockTopology::new_functioning().get_topology();
    assert!(scheduler
        .parse_to_schedule(vec![3, 4], &topology)
        .configs
        .is_empty());
    let one = scheduler.parse_to_schedule(vec![1], &topology);
    assert_eq!(one.configs.len(), 3);
    assert_eq!(one.configs[2].port.name, "sw0p4");
    assert_eq!(one.configs[2].port.mac_address, "00-60-65-82-c9-5d");
    assert_eq!(
        one.configs[2].port.config.admin_cycle_time,
        (640000, 1000000000)
    );
    assert_eq!(
        one.configs[2].port.config.admin_control_list[0].time_interval_value,
        640000
    );
    assert_eq!(
        one.configs[2].affected_streams,
        vec!["00-00-00-00-00-01:00-02", "00-00-00-00-00-02:00-03"]
    );
    let two = scheduler.parse_to_schedule(vec![2], &topology);
    assert_eq!(two.configs.len(), 2);
    assert!(two.configs.iter().all(|c| c.node_id == 2));
    assert_eq!(mock_schedule_of_both().configs.len(), 5);
    assert_eq!(mock_schedule_of_both().configs[0].node_id, 1);
}

#[test]
fn mock_topologies() {
    let failing = MockTopology::new_failing();
    let topology = failing.get_topology();
    let ids: Vec<u32> = topology.nodes.iter().map(|n| n.id).collect();
    assert_eq!(ids, vec![1, 2, 10, 11, 12]);
    assert_eq!(topology.connections.len(), 4);
    assert_eq!(topology.paths.as_ref().map(|p| p.len()), Some(3));
    assert_eq!(topology.paths.as_ref().unwrap()[2].hops, vec![1, 2]);
    assert_eq!(
        topology.nodes[1].configuration_params.as_ref().unwrap().ip,
        "10.2.0.2"
    );
    assert!(topology.nodes[2].configuration_params.is_none());
    assert_eq!(
        failing
            .get_node_information(11)
            .unwrap()
            .mac_addresses_interfaces,
        vec!["00-00-00-00-00-02"]
    );
    assert!(failing.get_node_information(3).is_none());
    assert_eq!(
        topology
            .get_node_from_id(2)
            .unwrap()
            .mac_addresses_interfaces
            .len(),
        2
    );
    assert!(topology.get_node_from_id(9).is_none());

    let functioning = MockTopology::new_functioning().get_topology();
    assert_eq!(functioning.nodes.len(), 3);
    assert_eq!(functioning.connections[1].b.port_name, "sw0p3");
    assert_eq!(functioning.paths.unwrap()[0].hops, vec![1]);

    assert_eq!(
        find_node_id_from_mac(&String::from("00-60-65-82-c9-5d"), &topology),
        Some(1)
    );
    assert_eq!(
        find_node_id_from_mac(&String::from("00-00-00-00-00-03"), &topology),
        Some(12)
    );
    assert_eq!(
        find_node_id_from_mac(&String::from("ff-ff-ff-ff-ff-ff"), &topology),
        None
    );
}

#[test]
fn every_run_ends_and_closes_what_it_opened() {
    let topology = MockTopology::new_failing().get_topology();
    let schedule = mock_schedule(&topology);
    for mask in 0u32..(1 << 12) {
        let mut run = ConfigurationRun::new(&topology, &schedule);
        let mut opened: Vec<u32> = Vec::new();
        let mut closed: Vec<u32> = Vec::new();
        let mut edit_failed = false;
        let mut steps = 0;
        loop {
            let action = run.next_action();
            let ok = mask & (1 << steps.min(11)) != 0;
            match &action {
                SessionAction::Finished => break,
                SessionAction::Connect { node_id, .. } => {
                    if ok {
                        opened.push(*node_id);
                    } else {
                        edit_failed = true;
                    }
                }
                SessionAction::EditPort { .. } => {
                    if !ok {
                        edit_failed = true;
                    }
                }
                SessionAction::Commit { .. } => assert!(!edit_failed),
                SessionAction::Close { node_id } => closed.push(*node_id),
            }
            run.record(ok);
            steps += 1;
            assert!(steps <= 5 * schedule.configs.len());
        }
        assert_eq!(opened, closed);
        if edit_failed {
            assert!(!run.failed_interfaces().interfaces.is_empty());
        }
    }
}

fn described(actions: &Vec<SessionAction>) -> Vec<String> {
    actions.iter().map(describe).collect()
}

#[test]
fn the_mock_southbound_commits_when_nothing_fails() {
    let topology = MockTopology::new_failing().get_topology();
    let mut southbound = MockSouthbound::new(Vec::new(), Vec::new(), Vec::new());
    let result = southbound.configure_network(&topology, &mock_schedule(&topology));
    assert!(result.failed_interfaces.interfaces.is_empty());
    assert!(result.uncommitted_interfaces.interfaces.is_empty());
    assert_eq!(
        described(southbound.actions()),
        vec![
            "connect 1 10.2.0.1",
            "edit 1 sw0p2",
            "edit 1 sw0p3",
            "edit 1 sw0p4",
            "connect 2 10.2.0.2",
            "edit 2 sw0p2",
            "edit 2 sw0p3",
            "commit 1",
            "close 1",
            "commit 2",
            "close 2",
        ]
    );
    assert!(southbound
        .retrieve_lldp(topology.nodes[0].configuration_params.clone().unwrap())
        .is_empty());
    assert!(southbound
        .retrieve_station_capibilities(topology.nodes[0].configuration_params.clone().unwrap())
        .is_empty());
}

#[test]
fn the_mock_southbound_commits_nothing_after_a_failure() {
    let topology = MockTopology::new_failing().get_topology();
    let schedule = mock_schedule(&topology);
    let names = |list: &Vec<ba::cnc::types::FailedInterface>| -> Vec<(u32, String)> {
        list.iter()
            .map(|f| (f.node_id, f.interface.interface_name.clone()))
            .collect()
    };

    let mut unreachable = MockSouthbound::new(vec![2], Vec::new(), Vec::new());
    let result = unreachable.configure_network(&topology, &schedule);
    assert_eq!(
        names(&result.failed_interfaces.interfaces),
        vec![(2, String::from("sw0p2")), (2, String::from("sw0p3"))]
    );
    assert_eq!(
        names(&result.uncommitted_interfaces.interfaces),
        vec![
            (1, String::from("sw0p2")),
            (1, String::from("sw0p3")),
            (1, String::from("sw0p4"))
        ]
    );
    assert_eq!(
        described(unreachable.actions()),
        vec![
            "connect 1 10.2.0.1",
            "edit 1 sw0p2",
            "edit 1 sw0p3",
            "edit 1 sw0p4",
            "connect 2 10.2.0.2",
            "connect 2 10.2.0.2",
            "close 1",
        ]
    );

    let mut failing_edits = MockSouthbound::new(Vec::new(), vec![1], Vec::new());
    let result = failing_edits.configure_network(&topology, &schedule);
    assert_eq!(result.failed_interfaces.interfaces.len(), 3);
    assert_eq!(
        names(&result.uncommitted_interfaces.interfaces),
        vec![(2, String::from("sw0p2")), (2, String::from("sw0p3"))]
    );
    assert!(!described(failing_edits.actions())
        .iter()
        .any(|a| a.starts_with("commit")));

    let mut failing_commit = MockSouthbound::new(Vec::new(), Vec::new(), vec![1]);
    let result = failing_commit.configure_network(&topology, &schedule);
    assert_eq!(
        names(&result.failed_interfaces.interfaces),
        vec![
            (1, String::from("sw0p2")),
            (1, String::from("sw0p3")),
            (1, String::from("sw0p4"))
        ]
    );
    assert!(result.uncommitted_interfaces.interfaces.is_empty());
    let second = failing_commit.configure_network(
        &topology,
        &Schedule {
            configs: Vec::new(),
        },
    );
    assert!(second.failed_interfaces.interfaces.is_empty());
    assert_eq!(failing_commit.actions().len(), 11);
}
