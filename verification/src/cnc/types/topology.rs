//! The network as the CNC sees it.

use super::tsn_types::BridgePortDelays;
use vstd::prelude::*;

verus! {

/// What kind of station a node is.
#[derive(Clone, Copy, Debug, PartialEq, Eq, Structural)]
pub enum NodeType {
    Bridge,
    EndStation,
}

impl DeepView for NodeType {
    type V = NodeType;

    open spec fn deep_view(&self) -> NodeType {
        *self
    }
}

/// One end of a link: a node and the port of that node.
#[derive(Debug)]
pub struct ConnectionInterface {
    pub node_id: u32,
    pub port_name: String,
}

/// What a [`ConnectionInterface`] holds, as a mathematical value.
pub struct ConnectionInterfaceModel {
    pub node_id: u32,
    pub port_name: Seq<char>,
}

impl DeepView for ConnectionInterface {
    type V = ConnectionInterfaceModel;

    open spec fn deep_view(&self) -> ConnectionInterfaceModel {
        ConnectionInterfaceModel {
            node_id: self.node_id.deep_view(),
            port_name: self.port_name.deep_view(),
        }
    }
}

impl Clone for ConnectionInterface {
    fn clone(&self) -> (r: Self)
        ensures
            r.deep_view() == self.deep_view(),
    {
        let port_name = self.port_name.clone();
        ConnectionInterface { node_id: self.node_id, port_name }
    }
}

/// A link between two ports. It has no direction.
#[derive(Debug)]
pub struct Connection {
    pub id: u32,
    pub a: ConnectionInterface,
    pub b: ConnectionInterface,
}

/// What a [`Connection`] holds, as a mathematical value.
pub struct ConnectionModel {
    pub id: u32,
    pub a: ConnectionInterfaceModel,
    pub b: ConnectionInterfaceModel,
}

impl DeepView for Connection {
    type V = ConnectionModel;

    open spec fn deep_view(&self) -> ConnectionModel {
        ConnectionModel {
            id: self.id.deep_view(),
            a: self.a.deep_view(),
            b: self.b.deep_view(),
        }
    }
}

impl Clone for Connection {
    fn clone(&self) -> (r: Self)
        ensures
            r.deep_view() == self.deep_view(),
    {
        let a = self.a.clone();
        let b = self.b.clone();
        Connection { id: self.id, a, b }
    }
}

/// How to reach the NETCONF server of a Bridge over SSH.
#[derive(Debug)]
pub struct SSHConfigurationParams {
    pub ip: String,
    pub port: u16,
    pub username: String,
    pub password: String,
}

/// What a [`SSHConfigurationParams`] holds, as a mathematical value.
pub struct SSHConfigurationParamsModel {
    pub ip: Seq<char>,
    pub port: u16,
    pub username: Seq<char>,
    pub password: Seq<char>,
}

impl DeepView for SSHConfigurationParams {
    type V = SSHConfigurationParamsModel;

    open spec fn deep_view(&self) -> SSHConfigurationParamsModel {
        SSHConfigurationParamsModel {
            ip: self.ip.deep_view(),
            port: self.port.deep_view(),
            username: self.username.deep_view(),
            password: self.password.deep_view(),
        }
    }
}

impl Clone for SSHConfigurationParams {
    fn clone(&self) -> (r: Self)
        ensures
            r.deep_view() == self.deep_view(),
    {
        let ip = self.ip.clone();
        let username = self.username.clone();
        let password = self.password.clone();
        SSHConfigurationParams { ip, port: self.port, username, password }
    }
}

/// A port of a Bridge with the delays it adds to a frame.
#[derive(Debug)]
pub struct Port {
    pub name: String,
    pub mac_address: String,
    /// One record per port speed.
    pub delays: Vec<BridgePortDelays>,
    /// Granularity of the port's gate timing, in tenths of nanoseconds.
    pub tick_granularity: u32,
}

/// What a [`Port`] holds, as a mathematical value.
pub struct PortModel {
    pub name: Seq<char>,
    pub mac_address: Seq<char>,
    pub delays: Seq<BridgePortDelays>,
    pub tick_granularity: u32,
}

impl DeepView for Port {
    type V = PortModel;

    open spec fn deep_view(&self) -> PortModel {
        PortModel {
            name: self.name.deep_view(),
            mac_address: self.mac_address.deep_view(),
            delays: self.delays.deep_view(),
            tick_granularity: self.tick_granularity.deep_view(),
        }
    }
}

impl Clone for Port {
    fn clone(&self) -> (r: Self)
        ensures
            r.deep_view() == self.deep_view(),
    {
        let name = self.name.clone();
        let mac_address = self.mac_address.clone();
        let delays = self.delays.clone();
        proof {
            assert(delays.deep_view() =~= self.delays.deep_view());
        }
        Port { name, mac_address, delays, tick_granularity: self.tick_granularity }
    }
}

/// A station of the network.
#[derive(Debug)]
pub struct NodeInformation {
    /// Below 10 for a Bridge, 10 and above for an end station.
    pub id: u32,
    /// MAC address of each interface.
    pub mac_addresses_interfaces: Vec<String>,
    pub endstation: NodeType,
    /// Present exactly for a Bridge that the CNC can configure.
    pub configuration_params: Option<SSHConfigurationParams>,
    pub ports: Vec<Port>,
}

/// What a [`NodeInformation`] holds, as a mathematical value.
pub struct NodeInformationModel {
    pub id: u32,
    pub mac_addresses_interfaces: Seq<Seq<char>>,
    pub endstation: NodeType,
    pub configuration_params: Option<SSHConfigurationParamsModel>,
    pub ports: Seq<PortModel>,
}

impl DeepView for NodeInformation {
    type V = NodeInformationModel;

    open spec fn deep_view(&self) -> NodeInformationModel {
        NodeInformationModel {
            id: self.id.deep_view(),
            mac_addresses_interfaces: self.mac_addresses_interfaces.deep_view(),
            endstation: self.endstation.deep_view(),
            configuration_params: self.configuration_params.deep_view(),
            ports: self.ports.deep_view(),
        }
    }
}

impl Clone for NodeInformation {
    fn clone(&self) -> (r: Self)
        ensures
            r.deep_view() == self.deep_view(),
    {
        let mac_addresses_interfaces = self.mac_addresses_interfaces.clone();
        let configuration_params = self.configuration_params.clone();
        let ports = self.ports.clone();
        proof {
            assert(mac_addresses_interfaces.deep_view()
                =~= self.mac_addresses_interfaces.deep_view());
            assert(ports.deep_view() =~= self.ports.deep_view());
        }
        NodeInformation {
            id: self.id,
            mac_addresses_interfaces,
            endstation: self.endstation,
            configuration_params,
            ports,
        }
    }
}

/// A precomputed path between two end stations.
#[derive(Debug)]
pub struct Path {
    pub node_a_id: u32,
    pub node_b_id: u32,
    /// The Bridges on the way from `node_a_id` to `node_b_id`, in order.
    pub hops: Vec<u32>,
}

/// What a [`Path`] holds, as a mathematical value.
pub struct PathModel {
    pub node_a_id: u32,
    pub node_b_id: u32,
    pub hops: Seq<u32>,
}

impl DeepView for Path {
    type V = PathModel;

    open spec fn deep_view(&self) -> PathModel {
        PathModel {
            node_a_id: self.node_a_id.deep_view(),
            node_b_id: self.node_b_id.deep_view(),
            hops: self.hops.deep_view(),
        }
    }
}

impl Clone for Path {
    fn clone(&self) -> (r: Self)
        ensures
            r.deep_view() == self.deep_view(),
    {
        let hops = self.hops.clone();
        proof {
            assert(hops.deep_view() =~= self.hops.deep_view());
        }
        Path { node_a_id: self.node_a_id, node_b_id: self.node_b_id, hops }
    }
}

/// A snapshot of the network: stations, links and, where known, paths.
#[derive(Debug)]
pub struct Topology {
    pub nodes: Vec<NodeInformation>,
    pub connections: Vec<Connection>,
    pub paths: Option<Vec<Path>>,
}

/// What a [`Topology`] holds, as a mathematical value.
pub struct TopologyModel {
    pub nodes: Seq<NodeInformationModel>,
    pub connections: Seq<ConnectionModel>,
    pub paths: Option<Seq<PathModel>>,
}

impl DeepView for Topology {
    type V = TopologyModel;

    open spec fn deep_view(&self) -> TopologyModel {
        TopologyModel {
            nodes: self.nodes.deep_view(),
            connections: self.connections.deep_view(),
            paths: self.paths.deep_view(),
        }
    }
}

impl Clone for Topology {
    fn clone(&self) -> (r: Self)
        ensures
            r.deep_view() == self.deep_view(),
    {
        let nodes = self.nodes.clone();
        let connections = self.connections.clone();
        let paths = self.paths.clone();
        proof {
            assert(nodes.deep_view() =~= self.nodes.deep_view());
            assert(connections.deep_view() =~= self.connections.deep_view());
            assert(paths.deep_view() =~= self.paths.deep_view());
        }
        Topology { nodes, connections, paths }
    }
}

} // verus!
