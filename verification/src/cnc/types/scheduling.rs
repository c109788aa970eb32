//! The result of a computation, as far as it concerns Bridges.

use super::sched_types::{
    ConfigurableGateParameterTableEntry, ConfigurableGateParameterTableEntryModel,
};
use vstd::prelude::*;

verus! {

/// Gate parameters to write to one port.
#[derive(Debug)]
pub struct PortConfiguration {
    /// Name of the port on its Bridge.
    pub name: String,
    pub mac_address: String,
    pub config: ConfigurableGateParameterTableEntry,
}

/// What a [`PortConfiguration`] holds, as a mathematical value.
pub struct PortConfigurationModel {
    pub name: Seq<char>,
    pub mac_address: Seq<char>,
    pub config: ConfigurableGateParameterTableEntryModel,
}

impl DeepView for PortConfiguration {
    type V = PortConfigurationModel;

    open spec fn deep_view(&self) -> PortConfigurationModel {
        PortConfigurationModel {
            name: self.name.deep_view(),
            mac_address: self.mac_address.deep_view(),
            config: self.config.deep_view(),
        }
    }
}

impl Clone for PortConfiguration {
    fn clone(&self) -> (r: Self)
        ensures
            r.deep_view() == self.deep_view(),
    {
        let name = self.name.clone();
        let mac_address = self.mac_address.clone();
        let config = self.config.clone();
        PortConfiguration { name, mac_address, config }
    }
}

/// The configuration of one port of one Bridge, with the Streams that rely on it.
#[derive(Debug)]
pub struct Config {
    pub port: PortConfiguration,
    pub node_id: u32,
    /// Every Stream whose delivery depends on this port's gate control list.
    pub affected_streams: Vec<String>,
}

/// What a [`Config`] holds, as a mathematical value.
pub struct ConfigModel {
    pub port: PortConfigurationModel,
    pub node_id: u32,
    pub affected_streams: Seq<Seq<char>>,
}

impl DeepView for Config {
    type V = ConfigModel;

    open spec fn deep_view(&self) -> ConfigModel {
        ConfigModel {
            port: self.port.deep_view(),
            node_id: self.node_id.deep_view(),
            affected_streams: self.affected_streams.deep_view(),
        }
    }
}

impl Clone for Config {
    fn clone(&self) -> (r: Self)
        ensures
            r.deep_view() == self.deep_view(),
    {
        let port = self.port.clone();
        let affected_streams = self.affected_streams.clone();
        proof {
            assert(affected_streams.deep_view() =~= self.affected_streams.deep_view());
        }
        Config { port, node_id: self.node_id, affected_streams }
    }
}

/// What a computation decided for the network: one [`Config`] per port to write.
#[derive(Debug)]
pub struct Schedule {
    pub configs: Vec<Config>,
}

/// What a [`Schedule`] holds, as a mathematical value.
pub struct ScheduleModel {
    pub configs: Seq<ConfigModel>,
}

impl DeepView for Schedule {
    type V = ScheduleModel;

    open spec fn deep_view(&self) -> ScheduleModel {
        ScheduleModel {
            configs: self.configs.deep_view(),
        }
    }
}

impl Clone for Schedule {
    fn clone(&self) -> (r: Self)
        ensures
            r.deep_view() == self.deep_view(),
    {
        let configs = self.configs.clone();
        proof {
            assert(configs.deep_view() =~= self.configs.deep_view());
        }
        Schedule { configs }
    }
}

} // verus!
