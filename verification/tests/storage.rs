use ba::cnc::new_stream;
use ba::cnc::northbound::{example_add_stream, MockUniAdapter};
use ba::cnc::notification::{
    create_computation_notification, create_configuration_notification, is_stream_unplaced,
};
use ba::cnc::scheduling::{MockTSNScheduler, SchedulerAdapterInterface};
use ba::cnc::storage::integrity::{
    are_cuc_ids_distinct, are_domain_ids_distinct, are_stream_ids_distinct, is_domain_well_formed,
    is_tree_well_formed,
};
use ba::cnc::storage::memory::MemoryPersistence;
use ba::cnc::storage::select::{contains_id, copy_selected};
use ba::cnc::storage::stream_id::{format_free_id, free_stream_id_from, is_valid_stream_id};
use ba::cnc::storage::tree::{
    find_cuc_index, find_domain_id_of_cuc, find_domain_index, find_stream_index,
    is_stream_id_in_use, remove_all_streams_from_tree, remove_stream_from_tree, set_stream_in_tree,
};
use ba::cnc::storage::update::{
    find_provided_stream, is_stream_failed, mark_tree_configured, modify_tree,
};
use ba::cnc::storage::{FileStorage, StoragePersistence};
use ba::cnc::topology::{MockTopology, TopologyAdapterInterface};
use ba::cnc::types::lldp_types::{
    ManagementAddress, RemoteOrgDefinedInfo, RemoteSystemsData, RemoteUnknownTlv,
};
use ba::cnc::types::scheduling::Config;
use ba::cnc::types::tsn_types::{BridgePortDelays, ConfigValue, GroupInterfaceId};
use ba::cnc::types::uni_types::compute_streams;
use ba::cnc::types::uni_types::{Cuc, Domain, Stream, StreamStatus};
use ba::cnc::types::{FailedInterface, FailedInterfaces, FailedStream};
use std::collections::HashMap;

/// A durable state that lives in memory and counts how often it was written.
struct Memory {
    domains: Option<Vec<Domain>>,
    configs: Option<HashMap<u32, Config>>,
    domain_saves: usize,
    config_saves: usize,
}

impl StoragePersistence for Memory {
    fn load_domains(&self) -> Option<Vec<Domain>> {
        self.domains.clone()
    }

    fn load_configs(&self) -> Option<HashMap<u32, Config>> {
        self.configs.clone()
    }

    fn save_domains(&mut self, domains: &Vec<Domain>) {
        self.domains = Some(domains.clone());
        self.domain_saves += 1;
    }

    fn save_configs(&mut self, configs: &HashMap<u32, Config>) {
        self.configs = Some(configs.clone());
        self.config_saves += 1;
    }
}

fn memory() -> Memory {
    Memory {
        domains: None,
        configs: None,
        domain_saves: 0,
        config_saves: 0,
    }
}

fn examples() -> Vec<Stream> {
    example_add_stream().iter().map(new_stream).collect()
}

fn stream(id: &str, status: StreamStatus) -> Stream {
    let mut s = new_stream(&example_add_stream()[0]);
    s.stream_id = String::from(id);
    s.stream_status = status;
    s
}

fn tree() -> Vec<Domain> {
    vec![
        Domain {
            domain_id: String::from("d1"),
            cnc_enabled: true,
            cuc: vec![
                Cuc {
                    cuc_id: String::from("c1"),
                    stream: vec![
                        stream("st1", StreamStatus::Planned),
                        stream("st2", StreamStatus::Configured),
                        stream("st3", StreamStatus::Modified),
                    ],
                },
                Cuc {
                    cuc_id: String::from("c2"),
                    stream: vec![stream("st1", StreamStatus::Configured)],
                },
            ],
        },
        Domain {
            domain_id: String::from("d2"),
            cnc_enabled: false,
            cuc: vec![Cuc {
                cuc_id: String::from("c1"),
                stream: vec![stream("st9", StreamStatus::Planned)],
            }],
        },
    ]
}

fn shape(tree: &Vec<Domain>) -> Vec<(String, String, String, StreamStatus)> {
    let mut out = Vec::new();
    for d in tree {
        for c in &d.cuc {
            for s in &c.stream {
                out.push((
                    d.domain_id.clone(),
                    c.cuc_id.clone(),
                    s.stream_id.clone(),
                    s.stream_status,
                ));
            }
        }
    }
    out
}

fn place(
    d: &str,
    c: &str,
    s: &str,
    status: StreamStatus,
) -> (String, String, String, StreamStatus) {
    (String::from(d), String::from(c), String::from(s), status)
}

fn is_well_formed(tree: &Vec<Domain>) -> bool {
    fn distinct(ids: Vec<&String>) -> bool {
        (0..ids.len()).all(|a| (a + 1..ids.len()).all(|b| ids[a] != ids[b]))
    }
    distinct(tree.iter().map(|d| &d.domain_id).collect())
        && tree.iter().all(|d| {
            distinct(d.cuc.iter().map(|c| &c.cuc_id).collect())
                && d.cuc
                    .iter()
                    .all(|c| distinct(c.stream.iter().map(|s| &s.stream_id).collect()))
        })
}

fn request(domain: &str, cuc: &str, list: Option<Vec<&str>>) -> compute_streams::Domain {
    compute_streams::Domain {
        domain_id: String::from(domain),
        cuc: vec![compute_streams::CucElement {
            cuc_id: String::from(cuc),
            stream_list: list.map(|l| l.into_iter().map(String::from).collect()),
        }],
    }
}

fn failed(ids: Vec<&str>) -> FailedInterfaces {
    FailedInterfaces {
        interfaces: vec![
            FailedInterface {
                interface: GroupInterfaceId {
                    mac_address: String::from("m"),
                    interface_name: String::from("port0"),
                },
                node_id: 1,
                affected_streams: Vec::new(),
            },
            FailedInterface {
                interface: GroupInterfaceId {
                    mac_address: String::from("m"),
                    interface_name: String::from("port1"),
                },
                node_id: 1,
                affected_streams: ids.into_iter().map(String::from).collect(),
            },
        ],
    }
}

#[test]
fn finding_in_the_tree() {
    let t = tree();
    assert_eq!(find_domain_index(&t, &String::from("d2")), 1);
    assert_eq!(find_domain_index(&t, &String::from("d3")), 2);
    assert_eq!(find_cuc_index(&t[0].cuc, &String::from("c2")), 1);
    assert_eq!(find_cuc_index(&t[0].cuc, &String::from("c9")), 2);
    assert_eq!(
        find_stream_index(&t[0].cuc[0].stream, &String::from("st3")),
        2
    );
    assert_eq!(
        find_stream_index(&t[0].cuc[0].stream, &String::from("st9")),
        3
    );
    assert_eq!(
        find_domain_id_of_cuc(&t, &String::from("c2")),
        Some(String::from("d1"))
    );
    assert_eq!(
        find_domain_id_of_cuc(&t, &String::from("c1")),
        Some(String::from("d1"))
    );
    assert_eq!(find_domain_id_of_cuc(&t, &String::from("c3")), None);
    assert!(is_stream_id_in_use(&t, &String::from("st9")));
    assert!(is_stream_id_in_use(&t, &String::from("st1")));
    assert!(!is_stream_id_in_use(&t, &String::from("st4")));
    assert!(contains_id(
        &vec![String::from("a"), String::from("b")],
        &String::from("b")
    ));
    assert!(!contains_id(&Vec::new(), &String::from("b")));
}

#[test]
fn setting_a_stream_keeps_the_tree_well_formed() {
    let mut t = tree();
    assert!(is_well_formed(&t));
    set_stream_in_tree(
        &mut t,
        &String::from("d1"),
        &String::from("c1"),
        &stream("st2", StreamStatus::Planned),
    );
    assert!(is_well_formed(&t));
    assert_eq!(
        shape(&t)[1],
        place("d1", "c1", "st2", StreamStatus::Modified)
    );
    assert_eq!(shape(&t).len(), 5);

    set_stream_in_tree(
        &mut t,
        &String::from("d1"),
        &String::from("c1"),
        &stream("st4", StreamStatus::Configured),
    );
    assert!(is_well_formed(&t));
    assert_eq!(
        shape(&t)[3],
        place("d1", "c1", "st4", StreamStatus::Configured)
    );

    set_stream_in_tree(
        &mut t,
        &String::from("d2"),
        &String::from("c7"),
        &stream("st1", StreamStatus::Planned),
    );
    assert!(is_well_formed(&t));
    assert_eq!(
        shape(&t)[6],
        place("d2", "c7", "st1", StreamStatus::Planned)
    );

    let before = shape(&t);
    set_stream_in_tree(
        &mut t,
        &String::from("d9"),
        &String::from("c1"),
        &stream("st1", StreamStatus::Planned),
    );
    assert_eq!(shape(&t), before);
}

#[test]
fn removing_from_the_tree() {
    let mut t = tree();
    assert!(remove_stream_from_tree(
        &mut t,
        &String::from("d1"),
        &String::from("c1"),
        &String::from("st2")
    ));
    assert!(is_well_formed(&t));
    assert_eq!(
        shape(&t),
        vec![
            place("d1", "c1", "st1", StreamStatus::Planned),
            place("d1", "c1", "st3", StreamStatus::Modified),
            place("d1", "c2", "st1", StreamStatus::Configured),
            place("d2", "c1", "st9", StreamStatus::Planned),
        ]
    );
    let before = shape(&t);
    assert!(!remove_stream_from_tree(
        &mut t,
        &String::from("d1"),
        &String::from("c1"),
        &String::from("st2")
    ));
    assert!(!remove_stream_from_tree(
        &mut t,
        &String::from("d1"),
        &String::from("c3"),
        &String::from("st1")
    ));
    assert!(!remove_stream_from_tree(
        &mut t,
        &String::from("d3"),
        &String::from("c1"),
        &String::from("st1")
    ));
    assert_eq!(shape(&t), before);

    assert!(remove_stream_from_tree(
        &mut t,
        &String::from("d1"),
        &String::from("c2"),
        &String::from("st1")
    ));
    assert_eq!(t[0].cuc[1].stream.len(), 0);
    assert_eq!(t[0].cuc[0].stream.len(), 2);

    assert!(remove_all_streams_from_tree(
        &mut t,
        &String::from("d1"),
        &String::from("c1")
    ));
    assert_eq!(
        shape(&t),
        vec![place("d2", "c1", "st9", StreamStatus::Planned)]
    );
    assert_eq!(t[0].cuc.len(), 2);
    assert!(!remove_all_streams_from_tree(
        &mut t,
        &String::from("d1"),
        &String::from("c5")
    ));
    assert!(!remove_all_streams_from_tree(
        &mut t,
        &String::from("d5"),
        &String::from("c1")
    ));
}

#[test]
fn selecting_from_the_tree() {
    let t = tree();
    let all = copy_selected(&t, &vec![request("d1", "c1", None)], false);
    assert_eq!(
        shape(&all),
        vec![
            place("d1", "c1", "st1", StreamStatus::Planned),
            place("d1", "c1", "st2", StreamStatus::Configured),
            place("d1", "c1", "st3", StreamStatus::Modified),
        ]
    );
    assert!(all[0].cnc_enabled);

    let pending = copy_selected(&t, &vec![request("d1", "c1", None)], true);
    assert_eq!(
        shape(&pending),
        vec![
            place("d1", "c1", "st1", StreamStatus::Planned),
            place("d1", "c1", "st3", StreamStatus::Modified)
        ]
    );

    let listed = copy_selected(
        &t,
        &vec![request("d1", "c1", Some(vec!["st3", "st2", "st7"]))],
        true,
    );
    assert_eq!(
        shape(&listed),
        vec![place("d1", "c1", "st3", StreamStatus::Modified)]
    );

    let two = copy_selected(
        &t,
        &vec![
            request("d2", "c1", None),
            request("d1", "c2", None),
            request("d7", "c1", None),
        ],
        false,
    );
    assert_eq!(
        shape(&two),
        vec![
            place("d2", "c1", "st9", StreamStatus::Planned),
            place("d1", "c2", "st1", StreamStatus::Configured)
        ]
    );
    assert!(!two[0].cnc_enabled);

    let none = copy_selected(&t, &vec![request("d1", "c9", None)], false);
    assert_eq!(none.len(), 1);
    assert!(none[0].cuc.is_empty());
    assert!(copy_selected(&t, &Vec::new(), false).is_empty());

    let both_cucs = compute_streams::Domain {
        domain_id: String::from("d1"),
        cuc: vec![
            compute_streams::CucElement {
                cuc_id: String::from("c2"),
                stream_list: None,
            },
            compute_streams::CucElement {
                cuc_id: String::from("c1"),
                stream_list: Some(vec![String::from("st1")]),
            },
        ],
    };
    assert_eq!(
        shape(&copy_selected(&t, &vec![both_cucs], false)),
        vec![
            place("d1", "c2", "st1", StreamStatus::Configured),
            place("d1", "c1", "st1", StreamStatus::Planned)
        ]
    );
}

#[test]
fn writing_a_computation_back() {
    let mut t = tree();
    let mut decided = stream("st2", StreamStatus::Configured);
    decided
        .talker
        .group_status_talker_listener
        .accumulated_latency = 77;
    let mut twice = stream("st2", StreamStatus::Configured);
    twice
        .talker
        .group_status_talker_listener
        .accumulated_latency = 88;
    let changes = vec![
        Domain {
            domain_id: String::from("d1"),
            cnc_enabled: true,
            cuc: vec![Cuc {
                cuc_id: String::from("c1"),
                stream: vec![decided, stream("st8", StreamStatus::Planned)],
            }],
        },
        Domain {
            domain_id: String::from("d1"),
            cnc_enabled: true,
            cuc: vec![
                Cuc {
                    cuc_id: String::from("c1"),
                    stream: vec![twice],
                },
                Cuc {
                    cuc_id: String::from("c3"),
                    stream: vec![stream("st1", StreamStatus::Planned)],
                },
            ],
        },
    ];
    assert_eq!(
        find_provided_stream(
            &changes,
            &String::from("d1"),
            &String::from("c1"),
            &String::from("st2")
        )
        .map(|s| s.talker.group_status_talker_listener.accumulated_latency),
        Some(88)
    );
    assert!(find_provided_stream(
        &changes,
        &String::from("d1"),
        &String::from("c2"),
        &String::from("st1")
    )
    .is_none());
    assert!(find_provided_stream(
        &changes,
        &String::from("d2"),
        &String::from("c1"),
        &String::from("st2")
    )
    .is_none());

    let before = shape(&t);
    modify_tree(&mut t, &changes);
    assert_eq!(shape(&t), before);
    assert!(is_well_formed(&t));
    assert_eq!(
        t[0].cuc[0].stream[1]
            .talker
            .group_status_talker_listener
            .accumulated_latency,
        88
    );
    assert_eq!(
        t[0].cuc[0].stream[0]
            .talker
            .group_status_talker_listener
            .accumulated_latency,
        0
    );
    assert_eq!(
        t[0].cuc[1].stream[0]
            .talker
            .group_status_talker_listener
            .accumulated_latency,
        0
    );
}

#[test]
fn recording_a_configuration() {
    let mut t = tree();
    let about = copy_selected(&t, &vec![request("d1", "c1", None)], false);
    let failures = failed(vec!["st3", "st1"]);
    assert!(is_stream_failed(&failures, &String::from("st1")));
    assert!(!is_stream_failed(&failures, &String::from("st2")));
    assert!(!is_stream_failed(
        &FailedInterfaces {
            interfaces: Vec::new()
        },
        &String::from("st1")
    ));

    mark_tree_configured(&mut t, &about, &failures);
    assert!(is_well_formed(&t));
    assert_eq!(
        shape(&t),
        vec![
            place("d1", "c1", "st1", StreamStatus::Modified),
            place("d1", "c1", "st2", StreamStatus::Configured),
            place("d1", "c1", "st3", StreamStatus::Modified),
            place("d1", "c2", "st1", StreamStatus::Configured),
            place("d2", "c1", "st9", StreamStatus::Planned),
        ]
    );
    mark_tree_configured(
        &mut t,
        &about,
        &FailedInterfaces {
            interfaces: Vec::new(),
        },
    );
    assert_eq!(
        shape(&t)[0],
        place("d1", "c1", "st1", StreamStatus::Configured)
    );
    assert_eq!(
        shape(&t)[2],
        place("d1", "c1", "st3", StreamStatus::Configured)
    );
    assert_eq!(
        shape(&t)[4],
        place("d2", "c1", "st9", StreamStatus::Planned)
    );
}

#[test]
fn notifications_list_exactly_the_streams() {
    let t = tree();
    let unplaced = vec![
        FailedStream {
            stream_id: String::from("st1"),
            cuc_id: String::from("c2"),
            domain_id: String::from("d1"),
            failure_code: 3,
        },
        FailedStream {
            stream_id: String::from("st3"),
            cuc_id: String::from("c1"),
            domain_id: String::from("d2"),
            failure_code: 3,
        },
    ];
    assert!(is_stream_unplaced(
        &unplaced,
        &String::from("d1"),
        &String::from("c2"),
        &String::from("st1")
    ));
    assert!(!is_stream_unplaced(
        &unplaced,
        &String::from("d1"),
        &String::from("c1"),
        &String::from("st1")
    ));
    let computed = create_computation_notification(&t, &unplaced);
    let listed: Vec<(String, String, String, u8)> = computed
        .iter()
        .flat_map(|d| {
            d.cucs.iter().flat_map(move |c| {
                c.streams.iter().map(move |s| {
                    (
                        d.domain_id.clone(),
                        c.cuc_id.clone(),
                        s.stream_id.clone(),
                        s.failure_code,
                    )
                })
            })
        })
        .collect();
    let codes: Vec<u8> = listed.iter().map(|l| l.3).collect();
    assert_eq!(codes, vec![0, 0, 0, 1, 0]);
    let places: Vec<(String, String, String)> =
        listed.into_iter().map(|l| (l.0, l.1, l.2)).collect();
    let expected: Vec<(String, String, String)> =
        shape(&t).into_iter().map(|p| (p.0, p.1, p.2)).collect();
    assert_eq!(places, expected);

    let configured = create_configuration_notification(&t, &failed(vec!["st1"]));
    let codes: Vec<u8> = configured
        .iter()
        .flat_map(|d| {
            d.cucs
                .iter()
                .flat_map(|c| c.streams.iter().map(|s| s.failure_code))
        })
        .collect();
    assert_eq!(codes, vec![1, 0, 0, 1, 0]);
    assert_eq!(configured.len(), 2);
    assert_eq!(configured[0].cucs.len(), 2);
    assert!(create_computation_notification(&Vec::new(), &unplaced).is_empty());
}

#[test]
fn stream_id_texts() {
    assert_eq!(format_free_id(0x7A, 0x6E), "00-00-00-00-00-00:7A-6E");
    assert_eq!(format_free_id(0, 0), "00-00-00-00-00-00:00-00");
    assert_eq!(format_free_id(255, 16), "00-00-00-00-00-00:FF-10");
    assert!(is_valid_stream_id("00-00-00-00-00-01:00-01"));
    assert!(is_valid_stream_id("AB-CD-EF-01-23-45:67-89"));
    assert!(!is_valid_stream_id("ab-cd-ef-01-23-45:67-89"));
    assert!(!is_valid_stream_id("00-00-00-00-00-01:00-0"));
    assert!(!is_valid_stream_id("00-00-00-00-00-01:00-011"));
    assert!(!is_valid_stream_id("00-00-00-00-00-01-00-01"));
    assert!(!is_valid_stream_id("00:00-00-00-00-01:00-01"));
    assert!(!is_valid_stream_id("0G-00-00-00-00-01:00-01"));
    assert!(!is_valid_stream_id(""));
    assert!(!is_valid_stream_id("no id"));
}

#[test]
fn the_search_for_a_free_id_passes_over_taken_ids() {
    let mut t = tree();
    assert_eq!(
        free_stream_id_from(&t, 0x11, 0x22),
        Some(String::from("00-00-00-00-00-00:11-22"))
    );
    t[0].cuc[0].stream[0].stream_id = String::from("00-00-00-00-00-00:11-22");
    t[1].cuc[0].stream[0].stream_id = String::from("00-00-00-00-00-00:11-23");
    assert_eq!(
        free_stream_id_from(&t, 0x11, 0x22),
        Some(String::from("00-00-00-00-00-00:11-24"))
    );
    t[0].cuc[0].stream[1].stream_id = String::from("00-00-00-00-00-00:FF-FF");
    assert_eq!(
        free_stream_id_from(&t, 0xFF, 0xFF),
        Some(String::from("00-00-00-00-00-00:00-00"))
    );
    assert_eq!(
        free_stream_id_from(&t, 0x00, 0xFF),
        Some(String::from("00-00-00-00-00-00:00-FF"))
    );
}

#[test]
fn no_free_id_is_left_when_all_are_taken() {
    let mut all: Vec<Stream> = Vec::new();
    let template = stream("x", StreamStatus::Planned);
    for a in 0..=255u8 {
        for b in 0..=255u8 {
            let mut s = Stream {
                stream_id: format_free_id(a, b),
                stream_status: StreamStatus::Planned,
                talker: template.talker.clone(),
                listener: Vec::new(),
                group_status_stream: template.group_status_stream.clone(),
            };
            s.talker.group_talker.data_frame_specification.clear();
            all.push(s);
        }
    }
    let last = all.pop().expect("not empty");
    let mut t = vec![Domain {
        domain_id: String::from("d"),
        cnc_enabled: true,
        cuc: vec![Cuc {
            cuc_id: String::from("c"),
            stream: all,
        }],
    }];
    assert_eq!(
        free_stream_id_from(&t, 3, 4),
        Some(String::from("00-00-00-00-00-00:FF-FF"))
    );
    t[0].cuc[0].stream.push(last);
    assert_eq!(free_stream_id_from(&t, 3, 4), None);
}

#[test]
fn the_mock_scheduler_decides_for_every_talker_and_listener() {
    let topology = MockTopology::new_failing().get_topology();
    let domains = vec![Domain {
        domain_id: String::from("d"),
        cnc_enabled: true,
        cuc: vec![Cuc {
            cuc_id: String::from("c"),
            stream: examples(),
        }],
    }];
    let result = MockTSNScheduler::new().compute_schedule(&topology, &domains);
    assert!(result.failed_streams.is_empty());
    assert_eq!(result.schedule.configs.len(), 5);
    assert_eq!(result.domains.len(), 1);
    for (before, after) in domains[0].cuc[0]
        .stream
        .iter()
        .zip(result.domains[0].cuc[0].stream.iter())
    {
        assert_eq!(before.stream_id, after.stream_id);
        assert!(after.stream_status == StreamStatus::Planned);
        let talker = &after.talker.group_status_talker_listener;
        assert_eq!(talker.accumulated_latency, 50000);
        assert_eq!(talker.interface_configuration.interface_list.len(), 1);
        let element = &talker.interface_configuration.interface_list[0];
        assert_eq!(
            element.group_interface_id.mac_address,
            before.talker.group_talker.end_station_interfaces[0].mac_address
        );
        assert_eq!(element.config_list.len(), 2);
        assert_eq!(element.config_list[0].index, 0);
        assert!(
            matches!(&element.config_list[0].config_value, ConfigValue::Ieee802MacAddresses(a) if a.source_mac_adress == before.talker.group_talker.end_station_interfaces[0].mac_address)
        );
        assert!(
            matches!(&element.config_list[1].config_value, ConfigValue::Ieee802VlanTag(v) if v.priority_code_point == 6 && v.vlan_id == 0)
        );
        assert_eq!(after.listener.len(), 1);
        let listener = &after.listener[0].group_status_talker_listener;
        assert_eq!(listener.accumulated_latency, 50000);
        assert_eq!(listener.interface_configuration.interface_list.len(), 1);
        assert_eq!(
            listener.interface_configuration.interface_list[0]
                .config_list
                .len(),
            2
        );
        assert_eq!(
            listener.interface_configuration.interface_list[0]
                .group_interface_id
                .mac_address,
            before.listener[0].group_listener.end_station_interfaces[0].mac_address
        );
    }

    let mut bare = examples();
    bare[0].talker.group_talker.end_station_interfaces.clear();
    bare[0].listener[0]
        .group_listener
        .end_station_interfaces
        .clear();
    let domains = vec![Domain {
        domain_id: String::from("d"),
        cnc_enabled: true,
        cuc: vec![Cuc {
            cuc_id: String::from("c"),
            stream: bare,
        }],
    }];
    let result = MockTSNScheduler::new()
        .compute_fake(&MockTopology::new_functioning().get_topology(), &domains);
    assert_eq!(result.schedule.configs.len(), 3);
    let first = &result.domains[0].cuc[0].stream[0];
    assert!(first
        .talker
        .group_status_talker_listener
        .interface_configuration
        .interface_list
        .is_empty());
    assert!(first.listener[0]
        .group_status_talker_listener
        .interface_configuration
        .interface_list
        .is_empty());
    assert_eq!(
        first
            .talker
            .group_status_talker_listener
            .accumulated_latency,
        50000
    );
}

#[test]
fn example_requests_become_planned_streams() {
    let requests = MockUniAdapter::get_example_add_stream();
    assert_eq!(requests.len(), 3);
    assert_eq!(requests[2].stream_id, "00-00-00-00-00-02:00-03");
    assert_eq!(
        requests[2].talker.end_station_interfaces[0].interface_name,
        "eth1"
    );
    assert_eq!(
        requests[1].listeners[0].end_station_interfaces[0].mac_address,
        "00-00-00-00-00-03"
    );
    assert_eq!(
        requests[0].talker.traffic_specification.interval.numerator,
        1000000
    );
    assert_eq!(
        requests[0]
            .talker
            .traffic_specification
            .time_aware
            .map(|t| t.latest_transmit_offset),
        Some(500000)
    );
    assert_eq!(
        requests[0].talker.user_to_network_requirements.max_latency,
        100000
    );

    let mut request = example_add_stream().remove(0);
    let mut second = request.listeners[0].clone();
    second.index = 5;
    request.listeners.push(second);
    let s = new_stream(&request);
    assert!(s.stream_status == StreamStatus::Planned);
    assert_eq!(s.stream_id, "00-00-00-00-00-01:00-01");
    assert_eq!(s.listener.len(), 2);
    assert_eq!(s.listener[0].index, 0);
    assert_eq!(s.listener[1].index, 1);
    assert_eq!(s.listener[1].group_listener.index, 5);
    assert_eq!(s.talker.group_status_talker_listener.accumulated_latency, 0);
    assert!(s
        .talker
        .group_status_talker_listener
        .interface_configuration
        .interface_list
        .is_empty());
    assert!(s.group_status_stream.failed_interfaces.is_empty());
    assert_eq!(s.group_status_stream.status_info.failure_code, 0);
    request.listeners.clear();
    assert!(new_stream(&request).listener.is_empty());
}

#[test]
fn the_store_keeps_one_configuration_per_bridge() {
    let mut storage = FileStorage::new(String::from("d1"), memory());
    assert!(storage.get_all_configs().is_empty());
    assert!(storage.get_config(1).is_none());
    let topology = MockTopology::new_failing().get_topology();
    let schedule = MockTSNScheduler::new().parse_to_schedule(vec![1, 2], &topology);
    storage.set_configs(&schedule.configs);
    assert_eq!(storage.get_all_configs().len(), 2);
    assert_eq!(storage.get_config(1).expect("stored").port.name, "sw0p4");
    assert_eq!(storage.get_config(2).expect("stored").port.name, "sw0p3");
    storage.set_config(schedule.configs[0].clone());
    assert_eq!(storage.get_config(1).expect("stored").port.name, "sw0p2");
    let mut ids: Vec<u32> = storage
        .get_all_configs()
        .iter()
        .map(|c| c.node_id)
        .collect();
    ids.sort();
    assert_eq!(ids, vec![1, 2]);
}

#[test]
fn restoring_takes_over_what_was_saved() {
    let mut storage = FileStorage::new(String::from("d2"), memory());
    assert_eq!(storage.domain(), "d2");
    let mut configs = HashMap::new();
    let schedule = MockTSNScheduler::new()
        .parse_to_schedule(vec![2], &MockTopology::new_failing().get_topology());
    configs.insert(2, schedule.configs[0].clone());
    storage.restore(Some(tree()), Some(configs));
    assert_eq!(
        shape(
            &storage
                .get_streams_in_domains(vec![request("d1", "c2", None), request("d2", "c1", None)])
        )
        .len(),
        2
    );
    assert_eq!(storage.get_config(2).expect("restored").port.name, "sw0p2");
    assert_eq!(
        storage.get_domain_id_of_cuc(String::from("c2")),
        Some(String::from("d1"))
    );

    let mut other = FileStorage::new(String::from("d3"), memory());
    other.restore(Some(tree()), None);
    let seeded = other.get_streams_in_domain(request("d3", "c1", None));
    assert_eq!(seeded.len(), 1);
    assert!(seeded[0].cnc_enabled);
    assert!(seeded[0].cuc.is_empty());
    other.set_stream(&String::from("c1"), &stream("st1", StreamStatus::Planned));
    other.set_streams(
        &String::from("c1"),
        &vec![
            stream("st1", StreamStatus::Planned),
            stream("st2", StreamStatus::Configured),
        ],
    );
    let mine = other.get_planned_and_modified_streams_in_domains(vec![request("d3", "c1", None)]);
    assert_eq!(
        shape(&mine),
        vec![place("d3", "c1", "st1", StreamStatus::Modified)]
    );
    other.remove_stream(&String::from("c1"), String::from("st1"));
    other.remove_stream(&String::from("c1"), String::from("st1"));
    assert_eq!(
        shape(&other.get_streams_in_domain(request("d3", "c1", None))),
        vec![place("d3", "c1", "st2", StreamStatus::Configured)]
    );
    other.modify_streams(&vec![Domain {
        domain_id: String::from("d3"),
        cnc_enabled: true,
        cuc: vec![Cuc {
            cuc_id: String::from("c1"),
            stream: vec![stream("st2", StreamStatus::Planned)],
        }],
    }]);
    other.set_streams_configured(
        &other.get_streams_in_domain(request("d3", "c1", None)),
        &failed(vec!["st2"]),
    );
    assert_eq!(
        shape(&other.get_streams_in_domain(request("d3", "c1", None))),
        vec![place("d3", "c1", "st2", StreamStatus::Modified)]
    );
    other.remove_all_streams(&String::from("c1"));
    assert!(
        other.get_streams_in_domain(request("d3", "c1", None))[0].cuc[0]
            .stream
            .is_empty()
    );
    assert_eq!(
        shape(&other.get_streams_in_domain(request("d1", "c1", None))).len(),
        3
    );
}

#[test]
fn empty_records() {
    let delays = BridgePortDelays::new();
    assert_eq!(
        (
            delays.port_speed,
            delays.dependent_rx_delay_min,
            delays.dependent_rx_delay_max,
            delays.independent_tx_delay_max
        ),
        (0, 0, 0, 0)
    );
    assert_eq!(
        (
            delays.independent_rx_delay_min,
            delays.independent_rx_delay_max
        ),
        (0, 0)
    );
    assert_eq!(
        (
            delays.independent_rly_delay_min,
            delays.independent_rly_delay_max,
            delays.independent_tx_delay_min
        ),
        (0, 0, 0)
    );
    let system = RemoteSystemsData::new();
    assert_eq!((system.time_mark, system.remote_index), (0, 0));
    assert!(
        system.chassis_id.is_empty() && system.port_id.is_empty() && system.system_name.is_empty()
    );
    assert!(system.management_address.is_empty());
    let address = ManagementAddress::new();
    assert!(
        address.address.is_empty()
            && address.address_subtype.is_empty()
            && address.if_subtype.is_empty()
    );
    assert_eq!(address.if_id, 0);
    let tlv = RemoteUnknownTlv::new();
    assert_eq!(tlv.tlv_type, 0);
    assert!(tlv.tlv_info.is_empty());
    let info = RemoteOrgDefinedInfo::new();
    assert_eq!(
        (info.info_identifier, info.info_subtype, info.info_index),
        (0, 0, 0)
    );
    assert!(info.remote_info.is_empty());
}

#[test]
fn well_formed_trees_have_distinct_ids() {
    let mut t = tree();
    assert!(is_tree_well_formed(&t));
    assert!(is_tree_well_formed(&Vec::new()));
    assert!(are_domain_ids_distinct(&t));
    assert!(is_domain_well_formed(&t[0]));
    assert!(are_cuc_ids_distinct(&t[0].cuc));
    assert!(are_stream_ids_distinct(&t[0].cuc[0].stream));

    t[0].cuc[0].stream[2].stream_id = String::from("st1");
    assert!(!are_stream_ids_distinct(&t[0].cuc[0].stream));
    assert!(are_stream_ids_distinct(&t[0].cuc[1].stream));
    assert!(!is_domain_well_formed(&t[0]));
    assert!(is_domain_well_formed(&t[1]));
    assert!(!is_tree_well_formed(&t));
    assert_eq!(is_tree_well_formed(&t), is_well_formed(&t));

    let mut t = tree();
    t[0].cuc[1].cuc_id = String::from("c1");
    assert!(!are_cuc_ids_distinct(&t[0].cuc));
    assert!(!is_tree_well_formed(&t));

    let mut t = tree();
    t[1].domain_id = String::from("d1");
    assert!(!are_domain_ids_distinct(&t));
    assert!(is_domain_well_formed(&t[0]) && is_domain_well_formed(&t[1]));
    assert!(!is_tree_well_formed(&t));

    let mut storage = FileStorage::new(String::from("d1"), memory());
    storage.restore(Some(tree()), None);
    assert!(storage.is_well_formed());
    storage.restore(Some(t), None);
    assert!(!storage.is_well_formed());
}

#[test]
fn a_memory_persistence_gives_back_what_was_saved() {
    let mut persistence = MemoryPersistence::new();
    assert!(persistence.load_domains().is_none());
    assert!(persistence.load_configs().is_none());

    persistence.save_domains(&tree());
    assert_eq!(
        shape(&persistence.load_domains().expect("saved")),
        shape(&tree())
    );
    assert!(persistence.load_configs().is_none());

    let schedule = MockTSNScheduler::new()
        .parse_to_schedule(vec![2], &MockTopology::new_failing().get_topology());
    let mut configs = HashMap::new();
    configs.insert(2, schedule.configs[0].clone());
    persistence.save_configs(&configs);
    let read = persistence.load_configs().expect("saved");
    assert_eq!(read.len(), 1);
    assert_eq!(read[&2].port.name, "sw0p2");

    persistence.save_domains(&Vec::new());
    assert!(persistence.load_domains().expect("saved").is_empty());
    assert_eq!(persistence.load_configs().expect("saved").len(), 1);
}

#[test]
fn a_store_made_ready_holds_what_an_earlier_run_saved() {
    let schedule = MockTSNScheduler::new()
        .parse_to_schedule(vec![2], &MockTopology::new_failing().get_topology());
    let mut configs = HashMap::new();
    configs.insert(2, schedule.configs[0].clone());
    let mut storage = FileStorage::new(
        String::from("d1"),
        MemoryPersistence::holding(tree(), configs),
    );
    assert!(storage
        .get_streams_in_domain(request("d1", "c1", None))
        .is_empty());
    storage.configure_storage();
    let read = storage.get_streams_in_domain(request("d1", "c1", None));
    assert_eq!(
        shape(&read),
        vec![
            (
                String::from("d1"),
                String::from("c1"),
                String::from("st1"),
                StreamStatus::Planned
            ),
            (
                String::from("d1"),
                String::from("c1"),
                String::from("st2"),
                StreamStatus::Configured
            ),
            (
                String::from("d1"),
                String::from("c1"),
                String::from("st3"),
                StreamStatus::Modified
            ),
        ]
    );
    assert_eq!(storage.get_config(2).expect("saved").port.name, "sw0p2");
    assert_eq!(
        shape(&storage.persistence().load_domains().expect("saved")),
        shape(&tree())
    );

    let mut fresh = FileStorage::new(String::from("d9"), MemoryPersistence::new());
    fresh.configure_storage();
    let seeded = fresh.persistence().load_domains().expect("saved");
    assert_eq!(seeded.len(), 1);
    assert_eq!(seeded[0].domain_id, "d9");
    assert!(seeded[0].cnc_enabled);
    assert!(seeded[0].cuc.is_empty());
    assert!(fresh
        .persistence()
        .load_configs()
        .expect("saved")
        .is_empty());

    fresh.set_stream(&String::from("c1"), &stream("st1", StreamStatus::Planned));
    let kept = fresh.persistence().load_domains().expect("saved");
    assert_eq!(
        shape(&kept),
        vec![(
            String::from("d9"),
            String::from("c1"),
            String::from("st1"),
            StreamStatus::Planned
        )]
    );
}

#[test]
fn what_a_store_saved_is_there_after_a_restart() {
    let mut first = FileStorage::new(String::from("d1"), MemoryPersistence::new());
    first.configure_storage();
    first.set_stream(&String::from("c1"), &stream("st1", StreamStatus::Planned));
    first.set_stream(&String::from("c1"), &stream("st2", StreamStatus::Planned));
    first.set_stream(&String::from("c1"), &stream("st1", StreamStatus::Planned));
    let schedule = MockTSNScheduler::new()
        .parse_to_schedule(vec![2], &MockTopology::new_failing().get_topology());
    first.set_config(schedule.configs[0].clone());

    let left = MemoryPersistence::holding(
        first.persistence().load_domains().expect("saved"),
        first.persistence().load_configs().expect("saved"),
    );
    let mut second = FileStorage::new(String::from("d1"), left);
    second.configure_storage();
    assert_eq!(
        shape(&second.get_streams_in_domain(request("d1", "c1", None))),
        vec![
            (
                String::from("d1"),
                String::from("c1"),
                String::from("st1"),
                StreamStatus::Modified
            ),
            (
                String::from("d1"),
                String::from("c1"),
                String::from("st2"),
                StreamStatus::Planned
            ),
        ]
    );
    assert_eq!(
        shape(&second.get_streams_in_domain(request("d1", "c1", None))),
        shape(&first.get_streams_in_domain(request("d1", "c1", None)))
    );
    assert_eq!(second.get_all_configs().len(), 1);
    assert_eq!(second.get_config(2).expect("saved").port.name, "sw0p2");
}
