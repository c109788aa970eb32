use ba::cnc::northbound::{
    MockComputeStreamAdapter, MockGetStreamAdapter, MockInsertStreamAdapter,
    MockRemoveStreamAdapter, MockUniAdapter, NorthboundControllerInterface, SentNotification,
};
use ba::cnc::scheduling::{MockTSNScheduler, SchedulerAdapterInterface};
use ba::cnc::southbound::configure::{ConfigurationRun, SessionAction};
use ba::cnc::southbound::mock::MockSouthbound;
use ba::cnc::southbound::SouthboundAdapterInterface;
use ba::cnc::storage::memory::MemoryPersistence;
use ba::cnc::storage::{FileStorage, StoragePersistence};
use ba::cnc::topology::MockTopology;
use ba::cnc::types::computation::ComputationType;
use ba::cnc::types::lldp_types::RemoteSystemsData;
use ba::cnc::types::notification_types::NotificationContent;
use ba::cnc::types::scheduling::{Config, Schedule};
use ba::cnc::types::topology::{Port, SSHConfigurationParams, Topology};
use ba::cnc::types::uni_types::compute_streams::{CucElement, Domain};
use ba::cnc::types::uni_types::request_free_stream_id;
use ba::cnc::types::uni_types::StreamStatus;
use ba::cnc::types::{ComputationResult, ConfigurationResult, FailedStream};
use ba::cnc::Cnc;
use std::collections::HashMap;

/// A durable state that lives in memory.
struct Memory {
    domains: Option<Vec<ba::cnc::types::uni_types::Domain>>,
    configs: Option<HashMap<u32, Config>>,
    domain_saves: usize,
    config_saves: usize,
}

impl Memory {
    fn empty() -> Self {
        Memory {
            domains: None,
            configs: None,
            domain_saves: 0,
            config_saves: 0,
        }
    }

    /// What the file of the trials holds: the domain with an empty CUC.
    fn with_empty_cuc() -> Self {
        let domain = ba::cnc::types::uni_types::Domain {
            domain_id: String::from("test-domain-id"),
            cnc_enabled: true,
            cuc: vec![ba::cnc::types::uni_types::Cuc {
                cuc_id: String::from("test-cuc-id"),
                stream: Vec::new(),
            }],
        };
        Memory {
            domains: Some(vec![domain]),
            configs: None,
            domain_saves: 0,
            config_saves: 0,
        }
    }
}

impl StoragePersistence for Memory {
    fn load_domains(&self) -> Option<Vec<ba::cnc::types::uni_types::Domain>> {
        self.domains.clone()
    }

    fn load_configs(&self) -> Option<HashMap<u32, Config>> {
        self.configs.clone()
    }

    fn save_domains(&mut self, domains: &Vec<ba::cnc::types::uni_types::Domain>) {
        self.domains = Some(domains.clone());
        self.domain_saves += 1;
    }

    fn save_configs(&mut self, configs: &HashMap<u32, Config>) {
        self.configs = Some(configs.clone());
        self.config_saves += 1;
    }
}

/// Bridges that answer as told: the listed ones cannot be reached, the listed commits fail.
struct ScriptedBridges {
    unreachable: Vec<u32>,
    failing_commits: Vec<u32>,
    log: Vec<String>,
}

impl ScriptedBridges {
    fn all_reachable() -> Self {
        ScriptedBridges {
            unreachable: Vec::new(),
            failing_commits: Vec::new(),
            log: Vec::new(),
        }
    }

    fn without(node_id: u32) -> Self {
        ScriptedBridges {
            unreachable: vec![node_id],
            failing_commits: Vec::new(),
            log: Vec::new(),
        }
    }
}

impl SouthboundAdapterInterface for ScriptedBridges {
    fn configure_network(
        &mut self,
        topology: &Topology,
        schedule: &Schedule,
    ) -> ConfigurationResult {
        let mut run = ConfigurationRun::new(topology, schedule);
        loop {
            let ok = match run.next_action() {
                SessionAction::Connect { node_id, .. } => {
                    self.log.push(format!("connect {}", node_id));
                    !self.unreachable.contains(&node_id)
                }
                SessionAction::EditPort { node_id, port } => {
                    self.log.push(format!("edit {} {}", node_id, port.name));
                    true
                }
                SessionAction::Commit { node_id } => {
                    self.log.push(format!("commit {}", node_id));
                    !self.failing_commits.contains(&node_id)
                }
                SessionAction::Close { node_id } => {
                    self.log.push(format!("close {}", node_id));
                    true
                }
                SessionAction::Finished => break,
            };
            run.record(ok);
        }
        run.result()
    }

    fn retrieve_station_capibilities(
        &mut self,
        _config_params: SSHConfigurationParams,
    ) -> Vec<Port> {
        Vec::new()
    }

    fn retrieve_lldp(&mut self, _config_params: SSHConfigurationParams) -> Vec<RemoteSystemsData> {
        Vec::new()
    }
}

/// A scheduler that reports one Stream as not placed.
struct HalfScheduler {
    unplaced: String,
}

impl SchedulerAdapterInterface for HalfScheduler {
    fn compute_schedule(
        &self,
        topology: &Topology,
        domains: &Vec<ba::cnc::types::uni_types::Domain>,
    ) -> ComputationResult {
        let mut result = MockTSNScheduler::new().compute_fake(topology, domains);
        result.failed_streams.push(FailedStream {
            stream_id: self.unplaced.clone(),
            cuc_id: String::from("test-cuc-id"),
            domain_id: String::from("test-domain-id"),
            failure_code: 7,
        });
        result
    }
}

type TrialCnc<N> = Cnc<N, ScriptedBridges, FileStorage<Memory>, MockTopology, MockTSNScheduler>;

fn cuc() -> String {
    String::from("test-cuc-id")
}

fn trial_cnc<N: ba::cnc::northbound::NorthboundAdapterInterface>(
    northbound: N,
    southbound: ScriptedBridges,
    topology: MockTopology,
) -> TrialCnc<N> {
    Cnc::new(
        0,
        northbound,
        southbound,
        FileStorage::new(String::from("test-domain-id"), Memory::with_empty_cuc()),
        topology,
        MockTSNScheduler::new(),
    )
}

fn streams_of<P: StoragePersistence>(
    storage: &FileStorage<P>,
    stream_list: Option<Vec<String>>,
) -> Vec<ba::cnc::types::uni_types::Domain> {
    storage.get_streams_in_domain(Domain {
        domain_id: String::from("test-domain-id"),
        cuc: vec![CucElement {
            cuc_id: cuc(),
            stream_list,
        }],
    })
}

fn with_example_streams(
    southbound: ScriptedBridges,
    topology: MockTopology,
) -> TrialCnc<MockComputeStreamAdapter> {
    let mut cnc = trial_cnc(MockComputeStreamAdapter::new(cuc()), southbound, topology);
    cnc.set_streams(&cuc(), MockInsertStreamAdapter::get_example_add_stream());
    cnc
}

fn listed_ids(notification: &NotificationContent) -> Vec<(String, u8)> {
    let mut out = Vec::new();
    for domain in notification.iter() {
        for cuc in domain.cucs.iter() {
            for stream in cuc.streams.iter() {
                out.push((stream.stream_id.clone(), stream.failure_code));
            }
        }
    }
    out
}

fn example_ids() -> Vec<String> {
    vec![
        String::from("00-00-00-00-00-01:00-01"),
        String::from("00-00-00-00-00-01:00-02"),
        String::from("00-00-00-00-00-02:00-03"),
    ]
}

#[test]
fn insert_streams() {
    let mut cnc = trial_cnc(
        MockInsertStreamAdapter::new(cuc()),
        ScriptedBridges::all_reachable(),
        MockTopology::new_functioning(),
    );
    MockInsertStreamAdapter::run(&cuc(), &mut cnc);
    assert!(!cnc.is_operating());

    let storage_domain = streams_of(cnc.storage(), None);
    let mut streams = example_ids();
    for stream in storage_domain[0].cuc[0].stream.iter() {
        let i = streams
            .iter()
            .position(|x| *x == stream.stream_id)
            .expect("has to be in here");
        streams.remove(i);
        assert!(stream.stream_status == StreamStatus::Planned);
    }
    assert_eq!(streams.len(), 0);
}

#[test]
fn remove_stream() {
    let mut cnc = trial_cnc(
        MockRemoveStreamAdapter::new(cuc()),
        ScriptedBridges::all_reachable(),
        MockTopology::new_functioning(),
    );
    cnc.set_streams(&cuc(), MockInsertStreamAdapter::get_example_add_stream());
    let answer = MockRemoveStreamAdapter::run(&cuc(), &mut cnc);
    assert_eq!(answer, "Success");

    let storage_domain = streams_of(
        cnc.storage(),
        Some(vec![String::from("00-00-00-00-00-01:00-01")]),
    );
    for stream in storage_domain[0].cuc[0].stream.iter() {
        assert!(stream.stream_id != String::from("00-00-00-00-00-01:00-01"));
    }
    let all = streams_of(cnc.storage(), None);
    assert_eq!(all[0].cuc[0].stream.len(), 2);
    for stream in all[0].cuc[0].stream.iter() {
        assert!(stream.stream_id != String::from("00-00-00-00-00-01:00-01"));
    }
}

#[test]
fn compute_all() {
    let mut cnc = with_example_streams(
        ScriptedBridges::all_reachable(),
        MockTopology::new_functioning(),
    );
    let (answer, records) = MockComputeStreamAdapter::run(&cuc(), &mut cnc);
    assert_eq!(answer, "Success");
    assert_eq!(records.len(), 1);
    assert_eq!(records[0].domains[0].cuc[0].stream.len(), 3);
    assert_eq!(records[0].topology.nodes.len(), 3);
    assert!(records[0].outcome.failed_interfaces.interfaces.is_empty());
    assert!(records[0]
        .outcome
        .uncommitted_interfaces
        .interfaces
        .is_empty());
    assert_eq!(records[0].notifications.len(), 2);

    let storage_domain = streams_of(cnc.storage(), None);
    assert_eq!(storage_domain[0].cuc[0].stream.len(), 3);
    for stream in storage_domain[0].cuc[0].stream.iter() {
        assert!(stream.stream_status == StreamStatus::Configured);
        assert!(
            stream
                .talker
                .group_status_talker_listener
                .accumulated_latency
                != 0
        );
        for listener in stream.listener.iter() {
            assert!(listener.group_status_talker_listener.accumulated_latency != 0);
        }
    }

    let received = cnc.northbound().notifications();
    assert_eq!(received.len(), 2);
    match &received[0] {
        SentNotification::ComputeStreamsCompleted(n) => {
            let expected: Vec<(String, u8)> = example_ids().into_iter().map(|id| (id, 0)).collect();
            assert_eq!(listed_ids(n), expected);
        }
        other => panic!("expected the end of the computation first, got {:?}", other),
    }
    match &received[1] {
        SentNotification::ConfigureStreamsCompleted(n) => {
            let expected: Vec<(String, u8)> = example_ids().into_iter().map(|id| (id, 0)).collect();
            assert_eq!(listed_ids(n), expected);
        }
        other => panic!(
            "expected the end of the configuration second, got {:?}",
            other
        ),
    }
    assert_eq!(
        cnc.southbound().log,
        vec![
            "connect 1",
            "edit 1 sw0p2",
            "edit 1 sw0p3",
            "edit 1 sw0p4",
            "commit 1",
            "close 1"
        ]
    );
    assert_eq!(cnc.storage().get_all_configs().len(), 1);
    assert_eq!(
        cnc.storage().get_config(1).expect("stored").port.name,
        "sw0p4"
    );
    assert!(cnc.storage().get_config(2).is_none());
}

#[test]
fn get_all_streams() {
    let mut cnc = trial_cnc(
        MockGetStreamAdapter::new(cuc()),
        ScriptedBridges::all_reachable(),
        MockTopology::new_functioning(),
    );
    cnc.set_streams(&cuc(), MockInsertStreamAdapter::get_example_add_stream());

    let storage_domain = streams_of(cnc.storage(), None);
    assert!(storage_domain.len() > 0);
    assert!(storage_domain[0].cuc.len() > 0);
    let streams = &storage_domain[0].cuc[0].stream;
    assert_eq!(streams.len(), 3);

    let answer = MockGetStreamAdapter::run(&cuc(), &mut cnc);
    assert_eq!(answer.domain_id, "test-domain-id");
    assert_eq!(answer.cuc[0].stream.len(), 3);
    assert!(!cnc.is_operating());
}

#[test]
fn commit_gate_on_partial_failure() {
    let mut cnc = with_example_streams(ScriptedBridges::without(2), MockTopology::new_failing());
    let request = ba::cnc::northbound::compute_all_of_cuc(&String::from("test-domain-id"), &cuc());
    assert_eq!(cnc.compute_streams(request), "Success");
    let record = cnc.execute_next().expect("a request was waiting");

    let failed: Vec<(u32, &str)> = record
        .outcome
        .failed_interfaces
        .interfaces
        .iter()
        .map(|f| (f.node_id, f.interface.interface_name.as_str()))
        .collect();
    assert_eq!(failed, vec![(2, "sw0p2"), (2, "sw0p3")]);
    let uncommitted: Vec<(u32, &str)> = record
        .outcome
        .uncommitted_interfaces
        .interfaces
        .iter()
        .map(|f| (f.node_id, f.interface.interface_name.as_str()))
        .collect();
    assert_eq!(uncommitted, vec![(1, "sw0p2"), (1, "sw0p3"), (1, "sw0p4")]);
    assert!(!cnc
        .southbound()
        .log
        .iter()
        .any(|entry| entry.starts_with("commit")));
    assert_eq!(
        cnc.southbound().log,
        vec![
            "connect 1",
            "edit 1 sw0p2",
            "edit 1 sw0p3",
            "edit 1 sw0p4",
            "connect 2",
            "connect 2",
            "close 1"
        ]
    );

    match &record.notifications[1] {
        SentNotification::ConfigureStreamsCompleted(n) => {
            assert_eq!(
                listed_ids(n),
                vec![
                    (String::from("00-00-00-00-00-01:00-01"), 0),
                    (String::from("00-00-00-00-00-01:00-02"), 1),
                    (String::from("00-00-00-00-00-02:00-03"), 1),
                ]
            );
        }
        other => panic!("expected the end of the configuration, got {:?}", other),
    }
    for stream in streams_of(cnc.storage(), None)[0].cuc[0].stream.iter() {
        assert!(stream.stream_status == StreamStatus::Modified);
    }
}

#[test]
fn commit_failure_fails_every_port_of_the_bridge() {
    let southbound = ScriptedBridges {
        unreachable: Vec::new(),
        failing_commits: vec![1],
        log: Vec::new(),
    };
    let mut cnc = with_example_streams(southbound, MockTopology::new_functioning());
    let request = ba::cnc::northbound::compute_all_of_cuc(&String::from("test-domain-id"), &cuc());
    cnc.compute_streams(request);
    let record = cnc.execute_next().expect("a request was waiting");

    assert!(record.outcome.uncommitted_interfaces.interfaces.is_empty());
    let names: Vec<&str> = record
        .outcome
        .failed_interfaces
        .interfaces
        .iter()
        .map(|f| f.interface.interface_name.as_str())
        .collect();
    assert_eq!(names, vec!["sw0p2", "sw0p3", "sw0p4"]);
    assert_eq!(
        cnc.southbound().log.last().map(|s| s.as_str()),
        Some("close 1")
    );
    for stream in streams_of(cnc.storage(), None)[0].cuc[0].stream.iter() {
        assert!(stream.stream_status == StreamStatus::Modified);
    }
}

#[test]
fn set_streams_marks_a_replaced_stream_modified() {
    let mut cnc = with_example_streams(
        ScriptedBridges::all_reachable(),
        MockTopology::new_functioning(),
    );
    let mut again = MockUniAdapter::get_example_add_stream();
    again.truncate(1);
    cnc.set_streams(&cuc(), again);

    let streams = &streams_of(cnc.storage(), None)[0].cuc[0].stream;
    assert_eq!(streams.len(), 3);
    assert!(streams[0].stream_status == StreamStatus::Modified);
    assert!(streams[1].stream_status == StreamStatus::Planned);
    assert!(streams[2].stream_status == StreamStatus::Planned);
}

#[test]
fn set_streams_creates_the_cuc() {
    let mut cnc = with_example_streams(
        ScriptedBridges::all_reachable(),
        MockTopology::new_functioning(),
    );
    let other = String::from("another-cuc");
    cnc.set_streams(&other, MockUniAdapter::get_example_add_stream());
    let answer = cnc.get_streams(&other);
    assert_eq!(answer.cuc.len(), 1);
    assert_eq!(answer.cuc[0].cuc_id, "another-cuc");
    assert_eq!(answer.cuc[0].stream.len(), 3);
    assert_eq!(cnc.request_domain_id(other), "test-domain-id");
}

#[test]
fn removing_a_missing_stream_changes_nothing() {
    let mut cnc = with_example_streams(
        ScriptedBridges::all_reachable(),
        MockTopology::new_functioning(),
    );
    let before: Vec<String> = streams_of(cnc.storage(), None)[0].cuc[0]
        .stream
        .iter()
        .map(|s| s.stream_id.clone())
        .collect();
    let answer = cnc.remove_streams(&cuc(), vec![String::from("00-00-00-00-00-09:00-09")]);
    assert_eq!(answer, "Success");
    let after: Vec<String> = streams_of(cnc.storage(), None)[0].cuc[0]
        .stream
        .iter()
        .map(|s| s.stream_id.clone())
        .collect();
    assert_eq!(before, after);
    let answer = cnc.remove_streams(&String::from("no-such-cuc"), example_ids());
    assert_eq!(answer, "Success");
    assert_eq!(streams_of(cnc.storage(), None)[0].cuc[0].stream.len(), 3);
}

#[test]
fn request_domain_id_of_an_unknown_cuc_fails() {
    let cnc = with_example_streams(
        ScriptedBridges::all_reachable(),
        MockTopology::new_functioning(),
    );
    assert_eq!(cnc.request_domain_id(cuc()), "test-domain-id");
    assert_eq!(cnc.request_domain_id(String::from("nobody")), "Failure");
}

#[test]
fn free_stream_id_is_not_in_use() {
    let cnc = with_example_streams(
        ScriptedBridges::all_reachable(),
        MockTopology::new_functioning(),
    );
    for _ in 0..200 {
        let id = cnc.request_free_stream_id(request_free_stream_id::Input {
            domain_id: String::from("test-domain-id"),
            cuc_id: cuc(),
        });
        assert!(ba::cnc::storage::stream_id::is_valid_stream_id(&id));
        assert!(id.starts_with("00-00-00-00-00-00:"));
        assert!(!example_ids().contains(&id));
    }
}

#[test]
fn random_start_stays_below_the_bound() {
    let storage = FileStorage::new(String::from("test-domain-id"), Memory::empty());
    for _ in 0..2000 {
        let id = storage
            .get_free_stream_id(String::from("test-domain-id"), cuc())
            .expect("an empty tree has free ids");
        assert_ne!(&id[18..20], "FF");
        assert_ne!(&id[21..23], "FF");
    }
}

#[test]
fn a_stopped_controller_takes_no_request() {
    let mut cnc = with_example_streams(
        ScriptedBridges::all_reachable(),
        MockTopology::new_functioning(),
    );
    cnc.set_operating(false);
    let request = ComputationType::All(Vec::new());
    assert_eq!(cnc.compute_streams(request), "sending on a closed channel");
    assert!(cnc.execute_next().is_none());
    assert!(cnc.run().is_empty());
    assert!(cnc.northbound().notifications().is_empty());
}

#[test]
fn requests_are_carried_out_oldest_first() {
    let mut cnc = with_example_streams(
        ScriptedBridges::all_reachable(),
        MockTopology::new_functioning(),
    );
    let all = ba::cnc::northbound::compute_all_of_cuc(&String::from("test-domain-id"), &cuc());
    let none = ComputationType::List(vec![Domain {
        domain_id: String::from("test-domain-id"),
        cuc: vec![CucElement {
            cuc_id: cuc(),
            stream_list: Some(Vec::new()),
        }],
    }]);
    cnc.compute_streams(none);
    cnc.compute_streams(all);
    let first = cnc.execute_next().expect("two wait");
    assert_eq!(first.domains[0].cuc[0].stream.len(), 0);
    let second = cnc.execute_next().expect("one waits");
    assert_eq!(second.domains[0].cuc[0].stream.len(), 3);
    assert!(cnc.execute_next().is_none());
    assert_eq!(cnc.northbound().notifications().len(), 4);
}

#[test]
fn planned_and_modified_leaves_configured_streams_out() {
    let mut cnc = with_example_streams(
        ScriptedBridges::all_reachable(),
        MockTopology::new_functioning(),
    );
    let (answer, records) = MockComputeStreamAdapter::run(&cuc(), &mut cnc);
    assert_eq!((answer.as_str(), records.len()), ("Success", 1));
    cnc.set_operating(true);
    let mut again = MockUniAdapter::get_example_add_stream();
    again.truncate(1);
    cnc.set_streams(&cuc(), again);

    let pending = ComputationType::PlannedAndModified(vec![Domain {
        domain_id: String::from("test-domain-id"),
        cuc: vec![CucElement {
            cuc_id: cuc(),
            stream_list: None,
        }],
    }]);
    let selected = cnc.get_domains_to_compute(pending);
    assert_eq!(selected.len(), 1);
    assert_eq!(selected[0].cuc[0].stream.len(), 1);
    assert_eq!(
        selected[0].cuc[0].stream[0].stream_id,
        "00-00-00-00-00-01:00-01"
    );
}

#[test]
fn a_stream_list_selects_the_listed_streams() {
    let cnc = with_example_streams(
        ScriptedBridges::all_reachable(),
        MockTopology::new_functioning(),
    );
    let listed = ComputationType::List(vec![Domain {
        domain_id: String::from("test-domain-id"),
        cuc: vec![CucElement {
            cuc_id: cuc(),
            stream_list: Some(vec![
                String::from("00-00-00-00-00-02:00-03"),
                String::from("00-00-00-00-00-01:00-01"),
                String::from("00-00-00-00-00-07:00-07"),
            ]),
        }],
    }]);
    let selected = cnc.get_domains_to_compute(listed);
    let ids: Vec<&str> = selected[0].cuc[0]
        .stream
        .iter()
        .map(|s| s.stream_id.as_str())
        .collect();
    assert_eq!(
        ids,
        vec!["00-00-00-00-00-01:00-01", "00-00-00-00-00-02:00-03"]
    );
}

#[test]
fn the_compute_notification_marks_what_the_scheduler_could_not_place() {
    let mut cnc = Cnc::new(
        7,
        MockUniAdapter::new(cuc()),
        ScriptedBridges::all_reachable(),
        FileStorage::new(String::from("test-domain-id"), Memory::with_empty_cuc()),
        MockTopology::new_functioning(),
        HalfScheduler {
            unplaced: String::from("00-00-00-00-00-01:00-02"),
        },
    );
    assert_eq!(cnc.id(), 7);
    assert_eq!(cnc.domain(), "test-domain-id");
    let answer = MockUniAdapter::run(&cuc(), &mut cnc);
    assert_eq!(answer, "Success");
    let record = cnc.execute_next().expect("a request was waiting");
    match &record.notifications[0] {
        SentNotification::ComputeStreamsCompleted(n) => {
            assert_eq!(
                listed_ids(n),
                vec![
                    (String::from("00-00-00-00-00-01:00-01"), 0),
                    (String::from("00-00-00-00-00-01:00-02"), 1),
                    (String::from("00-00-00-00-00-02:00-03"), 0),
                ]
            );
        }
        other => panic!("expected the end of the computation, got {:?}", other),
    }
    assert_eq!(record.notifications.len(), 2);
    assert_eq!(cnc.northbound().notifications().len(), 2);
}

#[test]
fn the_store_is_saved_after_each_change() {
    let mut storage = FileStorage::new(String::from("test-domain-id"), Memory::empty());
    storage.configure_storage();
    assert_eq!(storage.persistence().domain_saves, 1);
    assert_eq!(storage.persistence().config_saves, 1);
    let seeded = streams_of(&storage, None);
    assert_eq!(seeded.len(), 1);
    assert!(seeded[0].cnc_enabled);
    assert_eq!(seeded[0].cuc.len(), 0);
    assert_eq!(storage.get_domain_id_of_cuc(cuc()), None);
    let saved = storage.persistence().domains.as_ref().expect("saved");
    assert_eq!(saved.len(), 1);
    assert_eq!(saved[0].domain_id, "test-domain-id");

    let mut cnc = trial_cnc(
        MockUniAdapter::new(cuc()),
        ScriptedBridges::all_reachable(),
        MockTopology::new_functioning(),
    );
    assert_eq!(cnc.storage().persistence().domain_saves, 0);
    cnc.set_streams(&cuc(), MockUniAdapter::get_example_add_stream());
    assert_eq!(cnc.storage().persistence().domain_saves, 3);
    assert_eq!(
        cnc.storage().get_domain_id_of_cuc(cuc()),
        Some(String::from("test-domain-id"))
    );
    let saved = cnc.storage().persistence().domains.as_ref().expect("saved");
    assert_eq!(saved[0].cuc[0].stream.len(), 3);

    cnc.remove_streams(&cuc(), vec![String::from("00-00-00-00-00-09:00-09")]);
    assert_eq!(cnc.storage().persistence().domain_saves, 3);
    cnc.remove_streams(&cuc(), vec![String::from("00-00-00-00-00-01:00-01")]);
    assert_eq!(cnc.storage().persistence().domain_saves, 4);
    let saved = cnc.storage().persistence().domains.as_ref().expect("saved");
    assert_eq!(saved[0].cuc[0].stream.len(), 2);

    let request = ba::cnc::northbound::compute_all_of_cuc(&String::from("test-domain-id"), &cuc());
    cnc.compute_streams(request);
    let records = cnc.run();
    assert_eq!(records.len(), 1);
    assert!(cnc.run().is_empty());
    assert_eq!(cnc.storage().persistence().domain_saves, 6);
    assert_eq!(cnc.storage().persistence().config_saves, 2);
    let saved = cnc.storage().persistence().configs.as_ref().expect("saved");
    assert_eq!(saved.len(), 1);
    assert_eq!(saved[&1].port.name, "sw0p4");
}

fn commits_of(southbound: &MockSouthbound) -> Vec<u32> {
    southbound
        .actions()
        .iter()
        .filter_map(|action| match action {
            SessionAction::Commit { node_id } => Some(*node_id),
            _ => None,
        })
        .collect()
}

fn of_library_parts(
    southbound: MockSouthbound,
) -> Cnc<
    MockComputeStreamAdapter,
    MockSouthbound,
    FileStorage<MemoryPersistence>,
    MockTopology,
    MockTSNScheduler,
> {
    let mut cnc = Cnc::new(
        7,
        MockComputeStreamAdapter::new(cuc()),
        southbound,
        FileStorage::new(String::from("test-domain-id"), MemoryPersistence::new()),
        MockTopology::new_functioning(),
        MockTSNScheduler::new(),
    );
    cnc.set_streams(&cuc(), MockInsertStreamAdapter::get_example_add_stream());
    cnc
}

#[test]
fn a_controller_of_library_parts_computes_and_configures() {
    let mut cnc = of_library_parts(MockSouthbound::new(Vec::new(), Vec::new(), Vec::new()));
    assert_eq!(cnc.id(), 7);
    let (answer, records) = MockComputeStreamAdapter::run(&cuc(), &mut cnc);
    assert_eq!(answer, "Success");
    assert_eq!(records.len(), 1);
    assert!(records[0].outcome.failed_interfaces.interfaces.is_empty());
    assert!(records[0]
        .outcome
        .uncommitted_interfaces
        .interfaces
        .is_empty());
    assert_eq!(commits_of(cnc.southbound()), vec![1]);

    let received = cnc.northbound().notifications();
    assert_eq!(received.len(), 2);
    assert!(matches!(
        received[0],
        SentNotification::ComputeStreamsCompleted(_)
    ));
    assert!(matches!(
        received[1],
        SentNotification::ConfigureStreamsCompleted(_)
    ));

    let kept = streams_of(cnc.storage(), None);
    assert_eq!(kept[0].cuc[0].stream.len(), 3);
    for stream in kept[0].cuc[0].stream.iter() {
        assert!(stream.stream_status == StreamStatus::Configured);
    }
    let saved = cnc.storage().persistence().load_domains().expect("saved");
    assert_eq!(saved.len(), 1);
    for stream in saved[0].cuc[0].stream.iter() {
        assert!(stream.stream_status == StreamStatus::Configured);
    }
    let configs = cnc.storage().persistence().load_configs().expect("saved");
    assert_eq!(configs.len(), 1);
    assert_eq!(configs[&1].port.name, "sw0p4");
}

#[test]
fn a_controller_of_library_parts_commits_nothing_after_a_failed_edit() {
    let mut cnc = of_library_parts(MockSouthbound::new(Vec::new(), vec![1], Vec::new()));
    let (answer, records) = MockComputeStreamAdapter::run(&cuc(), &mut cnc);
    assert_eq!(answer, "Success");
    assert_eq!(records.len(), 1);
    assert_eq!(records[0].outcome.failed_interfaces.interfaces.len(), 3);
    assert!(commits_of(cnc.southbound()).is_empty());

    let kept = streams_of(cnc.storage(), None);
    for stream in kept[0].cuc[0].stream.iter() {
        assert!(stream.stream_status == StreamStatus::Modified);
    }
    match &cnc.northbound().notifications()[1] {
        SentNotification::ConfigureStreamsCompleted(n) => {
            let expected: Vec<(String, u8)> = example_ids().into_iter().map(|id| (id, 1)).collect();
            assert_eq!(listed_ids(n), expected);
        }
        other => panic!(
            "expected the end of the configuration second, got {:?}",
            other
        ),
    }
}
