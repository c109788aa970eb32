//! The side of the controller that faces the Bridges.

pub mod configure;
pub mod mock;
pub mod netconf;
pub mod text;
pub mod types;
pub mod xpath;

use crate::cnc::types::lldp_types::RemoteSystemsData;
use crate::cnc::types::scheduling::{Schedule, ScheduleModel};
use crate::cnc::types::topology::{Port, SSHConfigurationParams, Topology, TopologyModel};
use crate::cnc::types::{ConfigurationResult, ConfigurationResultModel};
use vstd::prelude::*;

verus! {

/// A marker for what a southbound adapter may ask of the controller. Nothing so far.
pub trait SouthboundControllerInterface {

}

/// What configures the Bridges and reads their state.
pub trait SouthboundAdapterInterface {
    /// Whether a southbound in this state, asked to write `schedule` to the Bridges of
    /// `topology`, may answer `result` and be left as `after`. Of a southbound that says
    /// nothing of itself, everything may be.
    open spec fn may_configure(
        &self,
        topology: TopologyModel,
        schedule: ScheduleModel,
        result: ConfigurationResultModel,
        after: &Self,
    ) -> bool {
        true
    }

    /// Writes `schedule` to the Bridges of `topology`. What comes back names every port whose
    /// configuration failed, and every port that was edited but is not in effect because
    /// nothing was committed, each with the Streams that rely on it.
    fn configure_network(&mut self, topology: &Topology, schedule: &Schedule) -> (r:
        ConfigurationResult)
        ensures
            old(self).may_configure(
                topology.deep_view(),
                schedule.deep_view(),
                r.deep_view(),
                final(self),
            ),
    ;

    /// Reads the ports of a Bridge with their delays. Empty where the Bridge cannot be reached.
    fn retrieve_station_capibilities(&mut self, config_params: SSHConfigurationParams) -> Vec<Port>;

    /// Reads what a Bridge learned about its neighbours. Empty where the Bridge cannot be
    /// reached.
    fn retrieve_lldp(&mut self, config_params: SSHConfigurationParams) -> Vec<RemoteSystemsData>;
}

} // verus!
