//! Where the controller learns what the network looks like.

use crate::cnc::types::topology::{
    Connection, ConnectionInterface, ConnectionInterfaceModel, ConnectionModel, NodeInformation,
    NodeInformationModel, NodeType, Path, PathModel, PortModel, SSHConfigurationParams,
    SSHConfigurationParamsModel, Topology, TopologyModel,
};
use crate::cnc::storage::select::contains_id;
use vstd::prelude::*;
use vstd::string::*;

verus! {

/// What a topology source can tell the controller.
pub trait TopologyControllerInterface {
    /// The network has changed.
    fn notify_topology_changed(&self);
}

/// A source of topology snapshots.
pub trait TopologyAdapterInterface {
    /// Whether the source in this state may report `topology` as the network. Of a source that
    /// says nothing of itself, every network may be reported.
    open spec fn may_report(&self, topology: TopologyModel) -> bool {
        true
    }

    /// The network as it is known now.
    fn get_topology(&self) -> (r: Topology)
        ensures
            self.may_report(r.deep_view()),
    ;

    /// The station with the id `id`, if it is known.
    fn get_node_information(&self, id: u32) -> Option<NodeInformation>;
}

/// The first station of `nodes` with the id `node_id`.
pub open spec fn node_with_id(nodes: Seq<NodeInformationModel>, node_id: u32) -> Option<
    NodeInformationModel,
>
    decreases nodes.len(),
{
    if nodes.len() == 0 {
        None
    } else if nodes[0].id == node_id {
        Some(nodes[0])
    } else {
        node_with_id(nodes.drop_first(), node_id)
    }
}

impl Topology {
    /// The first station with the id `node_id`, copied.
    pub fn get_node_from_id(&self, node_id: u32) -> (r: Option<NodeInformation>)
        ensures
            r.deep_view() == node_with_id(self.deep_view().nodes, node_id),
    {
        let ghost all = self.deep_view().nodes;
        let mut i: usize = 0;
        proof {
            assert(all.skip(0) =~= all);
        }
        while i < self.nodes.len()
            invariant
                i <= self.nodes.len(),
                all == self.deep_view().nodes,
                node_with_id(all, node_id) == node_with_id(all.skip(i as int), node_id),
            decreases self.nodes.len() - i,
        {
            proof {
                assert(all.skip(i as int).drop_first() =~= all.skip(i + 1));
                assert(all.skip(i as int)[0] == all[i as int]);
            }
            if self.nodes[i].id == node_id {
                return Some(self.nodes[i].clone());
            }
            i += 1;
        }
        None
    }
}

/// The first station of `nodes` that has an interface with the MAC address `mac`.
pub open spec fn node_with_mac(nodes: Seq<NodeInformationModel>, mac: Seq<char>) -> Option<u32>
    decreases nodes.len(),
{
    if nodes.len() == 0 {
        None
    } else if nodes[0].mac_addresses_interfaces.contains(mac) {
        Some(nodes[0].id)
    } else {
        node_with_mac(nodes.drop_first(), mac)
    }
}

/// The id of the first station of `topology` that has an interface with the MAC address `mac`.
pub fn find_node_id_from_mac(mac: &String, topology: &Topology) -> (r: Option<u32>)
    ensures
        r == node_with_mac(topology.deep_view().nodes, mac@),
{
    let ghost all = topology.deep_view().nodes;
    let mut i: usize = 0;
    proof {
        assert(all.skip(0) =~= all);
    }
    while i < topology.nodes.len()
        invariant
            i <= topology.nodes.len(),
            all == topology.deep_view().nodes,
            node_with_mac(all, mac@) == node_with_mac(all.skip(i as int), mac@),
        decreases topology.nodes.len() - i,
    {
        proof {
            assert(all.skip(i as int).drop_first() =~= all.skip(i + 1));
            assert(all.skip(i as int)[0] == all[i as int]);
        }
        if contains_id(&topology.nodes[i].mac_addresses_interfaces, mac) {
            return Some(topology.nodes[i].id);
        }
        i += 1;
    }
    None
}

/// A Bridge that the controller can configure: it is reached at `ip`, port 830.
pub open spec fn bridge(
    id: u32,
    mac_addresses: Seq<Seq<char>>,
    ip: Seq<char>,
    username: Seq<char>,
    password: Seq<char>,
) -> NodeInformationModel {
    NodeInformationModel {
        id,
        mac_addresses_interfaces: mac_addresses,
        endstation: NodeType::Bridge,
        configuration_params: Some(SSHConfigurationParamsModel {
            ip,
            port: 830,
            username,
            password,
        }),
        ports: Seq::empty(),
    }
}

/// An end station with one interface.
pub open spec fn end_station(id: u32, mac_address: Seq<char>) -> NodeInformationModel {
    NodeInformationModel {
        id,
        mac_addresses_interfaces: seq![mac_address],
        endstation: NodeType::EndStation,
        configuration_params: None,
        ports: Seq::empty(),
    }
}

/// A link between the port `a_port` of the station `a` and the port `b_port` of the station `b`.
pub open spec fn link(
    id: u32,
    a: u32,
    a_port: Seq<char>,
    b: u32,
    b_port: Seq<char>,
) -> ConnectionModel {
    ConnectionModel {
        id,
        a: ConnectionInterfaceModel { node_id: a, port_name: a_port },
        b: ConnectionInterfaceModel { node_id: b, port_name: b_port },
    }
}

/// The mock network with one Bridge and two end stations:
///
/// ```text
///       (1)
///      /   \
///   [10]   [11]
/// ```
pub open spec fn functioning_topology() -> TopologyModel {
    TopologyModel {
        nodes: seq![
            bridge(
                1,
                seq!["00-60-65-82-c9-5b"@, "00-60-65-82-c9-5c"@, "00-60-65-82-c9-5d"@],
                "10.2.0.1"@,
                "admin"@,
                "admin"@,
            ),
            end_station(10, "00-00-00-00-00-01"@),
            end_station(11, "00-00-00-00-00-02"@),
        ],
        connections: seq![
            link(0, 10, "eth0"@, 1, "sw0p2"@),
            link(1, 11, "eth1"@, 1, "sw0p3"@),
        ],
        paths: Some(seq![PathModel { node_a_id: 10, node_b_id: 11, hops: seq![1u32] }]),
    }
}

/// The mock network with two Bridges and three end stations, of which the Bridge 2 does not
/// exist in the laboratory, so that it cannot be configured:
///
/// ```text
///       (1) --- (2)
///      /   \       \
///   [10]   [11]    [12]
/// ```
pub open spec fn failing_topology() -> TopologyModel {
    TopologyModel {
        nodes: seq![
            bridge(
                1,
                seq!["00-60-65-82-c9-5b"@, "00-60-65-82-c9-5c"@, "00-60-65-82-c9-5d"@],
                "10.2.0.1"@,
                "admin"@,
                "admin"@,
            ),
            bridge(2, seq!["00-10-02-00-02-02"@, "00-10-02-00-02-03"@], "10.2.0.2"@, ""@, ""@),
            end_station(10, "00-00-00-00-00-01"@),
            end_station(11, "00-00-00-00-00-02"@),
            end_station(12, "00-00-00-00-00-03"@),
        ],
        connections: seq![
            link(0, 10, "eth0"@, 1, "sw0p2"@),
            link(1, 11, "eth1"@, 1, "sw0p3"@),
            link(2, 1, "sw0p4"@, 2, "sw0p2"@),
            link(3, 2, "sw0p3"@, 12, "eth0"@),
        ],
        paths: Some(
            seq![
                PathModel { node_a_id: 10, node_b_id: 11, hops: seq![1u32] },
                PathModel { node_a_id: 10, node_b_id: 12, hops: seq![1u32, 2u32] },
                PathModel { node_a_id: 11, node_b_id: 12, hops: seq![1u32, 2u32] },
            ],
        ),
    }
}

/// Builds a Bridge that the controller can configure.
fn new_bridge(id: u32, mac_addresses: Vec<String>, ip: &str, username: &str, password: &str) -> (r:
    NodeInformation)
    ensures
        r.deep_view() == bridge(id, mac_addresses.deep_view(), ip@, username@, password@),
{
    let r = NodeInformation {
        id,
        mac_addresses_interfaces: mac_addresses,
        endstation: NodeType::Bridge,
        configuration_params: Some(
            SSHConfigurationParams {
                ip: String::from_str(ip),
                port: 830,
                username: String::from_str(username),
                password: String::from_str(password),
            },
        ),
        ports: Vec::new(),
    };
    proof {
        assert(r.ports.deep_view() =~= Seq::<PortModel>::empty());
    }
    r
}

/// Builds an end station with one interface.
fn new_end_station(id: u32, mac_address: &str) -> (r: NodeInformation)
    ensures
        r.deep_view() == end_station(id, mac_address@),
{
    let mut mac_addresses: Vec<String> = Vec::new();
    mac_addresses.push(String::from_str(mac_address));
    let r = NodeInformation {
        id,
        mac_addresses_interfaces: mac_addresses,
        endstation: NodeType::EndStation,
        configuration_params: None,
        ports: Vec::new(),
    };
    proof {
        assert(r.ports.deep_view() =~= Seq::<PortModel>::empty());
        assert(r.mac_addresses_interfaces.deep_view() =~= seq![mac_address@]);
    }
    r
}

/// Builds a link.
fn new_link(id: u32, a: u32, a_port: &str, b: u32, b_port: &str) -> (r: Connection)
    ensures
        r.deep_view() == link(id, a, a_port@, b, b_port@),
{
    Connection {
        id,
        a: ConnectionInterface { node_id: a, port_name: String::from_str(a_port) },
        b: ConnectionInterface { node_id: b, port_name: String::from_str(b_port) },
    }
}

/// Builds a path over one or two Bridges.
fn new_path(a: u32, b: u32, hops: Vec<u32>) -> (r: Path)
    ensures
        r.deep_view() == (PathModel { node_a_id: a, node_b_id: b, hops: hops@ }),
{
    let r = Path { node_a_id: a, node_b_id: b, hops };
    proof {
        assert(r.hops.deep_view() =~= hops@);
    }
    r
}

/// Builds the interfaces of the Bridge 1 of the mock networks.
fn bridge_1_interfaces() -> (r: Vec<String>)
    ensures
        r.deep_view() == seq!["00-60-65-82-c9-5b"@, "00-60-65-82-c9-5c"@, "00-60-65-82-c9-5d"@],
{
    let mut r: Vec<String> = Vec::new();
    r.push(String::from_str("00-60-65-82-c9-5b"));
    r.push(String::from_str("00-60-65-82-c9-5c"));
    r.push(String::from_str("00-60-65-82-c9-5d"));
    proof {
        assert(r.deep_view() =~= seq![
            "00-60-65-82-c9-5b"@,
            "00-60-65-82-c9-5c"@,
            "00-60-65-82-c9-5d"@,
        ]);
    }
    r
}

/// A topology source that knows one fixed network.
pub struct MockTopology {
    topology: Topology,
}

impl MockTopology {
    /// The network that the source knows.
    pub closed spec fn network(&self) -> TopologyModel {
        self.topology.deep_view()
    }

    /// A source that knows the mock network with two Bridges, of which one cannot be reached.
    pub fn new_failing() -> (r: Self)
        ensures
            r.network() == failing_topology(),
    {
        let mut nodes: Vec<NodeInformation> = Vec::new();
        let mut connections: Vec<Connection> = Vec::new();
        let mut paths: Vec<Path> = Vec::new();

        nodes.push(new_bridge(1, bridge_1_interfaces(), "10.2.0.1", "admin", "admin"));
        let mut interfaces: Vec<String> = Vec::new();
        interfaces.push(String::from_str("00-10-02-00-02-02"));
        interfaces.push(String::from_str("00-10-02-00-02-03"));
        proof {
            assert(interfaces.deep_view() =~= seq!["00-10-02-00-02-02"@, "00-10-02-00-02-03"@]);
        }
        nodes.push(new_bridge(2, interfaces, "10.2.0.2", "", ""));
        nodes.push(new_end_station(10, "00-00-00-00-00-01"));
        nodes.push(new_end_station(11, "00-00-00-00-00-02"));
        nodes.push(new_end_station(12, "00-00-00-00-00-03"));

        connections.push(new_link(0, 10, "eth0", 1, "sw0p2"));
        connections.push(new_link(1, 11, "eth1", 1, "sw0p3"));
        connections.push(new_link(2, 1, "sw0p4", 2, "sw0p2"));
        connections.push(new_link(3, 2, "sw0p3", 12, "eth0"));

        let mut one: Vec<u32> = Vec::new();
        one.push(1);
        paths.push(new_path(10, 11, one));
        let mut both: Vec<u32> = Vec::new();
        both.push(1);
        both.push(2);
        proof {
            assert(both@ =~= seq![1u32, 2u32]);
        }
        paths.push(new_path(10, 12, both));
        let mut both: Vec<u32> = Vec::new();
        both.push(1);
        both.push(2);
        proof {
            assert(both@ =~= seq![1u32, 2u32]);
        }
        paths.push(new_path(11, 12, both));

        let topology = Topology { nodes, connections, paths: Some(paths) };
        proof {
            let m = failing_topology();
            assert(topology.nodes.deep_view() =~= m.nodes);
            assert(topology.connections.deep_view() =~= m.connections);
            assert(topology.paths.deep_view()->0 =~= m.paths->0);
        }
        MockTopology { topology }
    }

    /// A source that knows the mock network with one Bridge.
    pub fn new_functioning() -> (r: Self)
        ensures
            r.network() == functioning_topology(),
    {
        let mut nodes: Vec<NodeInformation> = Vec::new();
        let mut connections: Vec<Connection> = Vec::new();
        let mut paths: Vec<Path> = Vec::new();

        nodes.push(new_bridge(1, bridge_1_interfaces(), "10.2.0.1", "admin", "admin"));
        nodes.push(new_end_station(10, "00-00-00-00-00-01"));
        nodes.push(new_end_station(11, "00-00-00-00-00-02"));

        connections.push(new_link(0, 10, "eth0", 1, "sw0p2"));
        connections.push(new_link(1, 11, "eth1", 1, "sw0p3"));

        let mut one: Vec<u32> = Vec::new();
        one.push(1);
        paths.push(new_path(10, 11, one));

        let topology = Topology { nodes, connections, paths: Some(paths) };
        proof {
            let m = functioning_topology();
            assert(topology.nodes.deep_view() =~= m.nodes);
            assert(topology.connections.deep_view() =~= m.connections);
            assert(topology.paths.deep_view()->0 =~= m.paths->0);
        }
        MockTopology { topology }
    }
}

impl TopologyAdapterInterface for MockTopology {
    /// The source reports the one network that it knows.
    open spec fn may_report(&self, topology: TopologyModel) -> bool {
        topology == self.network()
    }

    /// A copy of the network that the source knows.
    fn get_topology(&self) -> (r: Topology)
        ensures
            r.deep_view() == self.network(),
    {
        self.topology.clone()
    }

    /// The first station of the network with the id `id`.
    fn get_node_information(&self, id: u32) -> (r: Option<NodeInformation>)
        ensures
            r.deep_view() == node_with_id(self.network().nodes, id),
    {
        self.topology.get_node_from_id(id)
    }
}

} // verus!
