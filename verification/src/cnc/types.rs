//! The data that the parts of the CNC exchange.

pub mod computation;
pub mod lldp_types;
pub mod notification_types;
pub mod sched_types;
pub mod scheduling;
pub mod topology;
pub mod tsn_types;
pub mod uni_types;

use self::scheduling::{Schedule, ScheduleModel};
use self::tsn_types::{
    GroupInterfaceId, GroupInterfaceIdModel, GroupListener, GroupListenerModel, GroupTalker,
    GroupTalkerModel,
};
use self::uni_types::{Domain, DomainModel};
use vstd::prelude::*;

verus! {

/// A port whose configuration failed, with the Streams that relied on it.
#[derive(Debug)]
pub struct FailedInterface {
    pub interface: GroupInterfaceId,
    pub node_id: u32,
    /// The Streams that rely on the port. No id occurs twice.
    pub affected_streams: Vec<String>,
}

/// What a [`FailedInterface`] holds, as a mathematical value.
pub struct FailedInterfaceModel {
    pub interface: GroupInterfaceIdModel,
    pub node_id: u32,
    pub affected_streams: Seq<Seq<char>>,
}

impl DeepView for FailedInterface {
    type V = FailedInterfaceModel;

    open spec fn deep_view(&self) -> FailedInterfaceModel {
        FailedInterfaceModel {
            interface: self.interface.deep_view(),
            node_id: self.node_id.deep_view(),
            affected_streams: self.affected_streams.deep_view(),
        }
    }
}

impl Clone for FailedInterface {
    fn clone(&self) -> (r: Self)
        ensures
            r.deep_view() == self.deep_view(),
    {
        let interface = self.interface.clone();
        let affected_streams = self.affected_streams.clone();
        proof {
            assert(affected_streams.deep_view() =~= self.affected_streams.deep_view());
        }
        FailedInterface { interface, node_id: self.node_id, affected_streams }
    }
}

/// The ports whose configuration failed in one run.
#[derive(Debug)]
pub struct FailedInterfaces {
    pub interfaces: Vec<FailedInterface>,
}

/// What a [`FailedInterfaces`] holds, as a mathematical value.
pub struct FailedInterfacesModel {
    pub interfaces: Seq<FailedInterfaceModel>,
}

impl DeepView for FailedInterfaces {
    type V = FailedInterfacesModel;

    open spec fn deep_view(&self) -> FailedInterfacesModel {
        FailedInterfacesModel {
            interfaces: self.interfaces.deep_view(),
        }
    }
}

impl Clone for FailedInterfaces {
    fn clone(&self) -> (r: Self)
        ensures
            r.deep_view() == self.deep_view(),
    {
        let interfaces = self.interfaces.clone();
        proof {
            assert(interfaces.deep_view() =~= self.interfaces.deep_view());
        }
        FailedInterfaces { interfaces }
    }
}

/// What a southbound hands back after it configured the network.
#[derive(Debug)]
pub struct ConfigurationResult {
    /// The ports whose configuration failed: no session could be opened, the edit failed, or
    /// the commit on their Bridge failed.
    pub failed_interfaces: FailedInterfaces,
    /// The ports that were edited but are not in effect, because nothing was committed after
    /// another port had failed.
    pub uncommitted_interfaces: FailedInterfaces,
}

/// What a [`ConfigurationResult`] holds, as a mathematical value.
pub struct ConfigurationResultModel {
    pub failed_interfaces: FailedInterfacesModel,
    pub uncommitted_interfaces: FailedInterfacesModel,
}

impl DeepView for ConfigurationResult {
    type V = ConfigurationResultModel;

    open spec fn deep_view(&self) -> ConfigurationResultModel {
        ConfigurationResultModel {
            failed_interfaces: self.failed_interfaces.deep_view(),
            uncommitted_interfaces: self.uncommitted_interfaces.deep_view(),
        }
    }
}

impl Clone for ConfigurationResult {
    fn clone(&self) -> (r: Self)
        ensures
            r.deep_view() == self.deep_view(),
    {
        let failed_interfaces = self.failed_interfaces.clone();
        let uncommitted_interfaces = self.uncommitted_interfaces.clone();
        ConfigurationResult { failed_interfaces, uncommitted_interfaces }
    }
}

/// A Stream that the scheduler could not place.
#[derive(Debug)]
pub struct FailedStream {
    pub stream_id: String,
    pub cuc_id: String,
    pub domain_id: String,
    pub failure_code: u32,
}

/// What a [`FailedStream`] holds, as a mathematical value.
pub struct FailedStreamModel {
    pub stream_id: Seq<char>,
    pub cuc_id: Seq<char>,
    pub domain_id: Seq<char>,
    pub failure_code: u32,
}

impl DeepView for FailedStream {
    type V = FailedStreamModel;

    open spec fn deep_view(&self) -> FailedStreamModel {
        FailedStreamModel {
            stream_id: self.stream_id.deep_view(),
            cuc_id: self.cuc_id.deep_view(),
            domain_id: self.domain_id.deep_view(),
            failure_code: self.failure_code.deep_view(),
        }
    }
}

impl Clone for FailedStream {
    fn clone(&self) -> (r: Self)
        ensures
            r.deep_view() == self.deep_view(),
    {
        let stream_id = self.stream_id.clone();
        let cuc_id = self.cuc_id.clone();
        let domain_id = self.domain_id.clone();
        FailedStream { stream_id, cuc_id, domain_id, failure_code: self.failure_code }
    }
}

/// What a scheduler hands back.
#[derive(Debug)]
pub struct ComputationResult {
    pub schedule: Schedule,
    /// The Streams it was given, with what it decided for each Talker and Listener.
    pub domains: Vec<Domain>,
    /// Exactly the Streams it could not place.
    pub failed_streams: Vec<FailedStream>,
}

/// What a [`ComputationResult`] holds, as a mathematical value.
pub struct ComputationResultModel {
    pub schedule: ScheduleModel,
    pub domains: Seq<DomainModel>,
    pub failed_streams: Seq<FailedStreamModel>,
}

impl DeepView for ComputationResult {
    type V = ComputationResultModel;

    open spec fn deep_view(&self) -> ComputationResultModel {
        ComputationResultModel {
            schedule: self.schedule.deep_view(),
            domains: self.domains.deep_view(),
            failed_streams: self.failed_streams.deep_view(),
        }
    }
}

impl Clone for ComputationResult {
    fn clone(&self) -> (r: Self)
        ensures
            r.deep_view() == self.deep_view(),
    {
        let schedule = self.schedule.clone();
        let domains = self.domains.clone();
        let failed_streams = self.failed_streams.clone();
        proof {
            assert(domains.deep_view() =~= self.domains.deep_view());
            assert(failed_streams.deep_view() =~= self.failed_streams.deep_view());
        }
        ComputationResult { schedule, domains, failed_streams }
    }
}

/// What a CUC hands in to create or replace a Stream.
#[derive(Debug)]
pub struct StreamRequest {
    pub stream_id: String,
    pub talker: GroupTalker,
    pub listeners: Vec<GroupListener>,
}

/// What a [`StreamRequest`] holds, as a mathematical value.
pub struct StreamRequestModel {
    pub stream_id: Seq<char>,
    pub talker: GroupTalkerModel,
    pub listeners: Seq<GroupListenerModel>,
}

impl DeepView for StreamRequest {
    type V = StreamRequestModel;

    open spec fn deep_view(&self) -> StreamRequestModel {
        StreamRequestModel {
            stream_id: self.stream_id.deep_view(),
            talker: self.talker.deep_view(),
            listeners: self.listeners.deep_view(),
        }
    }
}

impl Clone for StreamRequest {
    fn clone(&self) -> (r: Self)
        ensures
            r.deep_view() == self.deep_view(),
    {
        let stream_id = self.stream_id.clone();
        let talker = self.talker.clone();
        let listeners = self.listeners.clone();
        proof {
            assert(listeners.deep_view() =~= self.listeners.deep_view());
        }
        StreamRequest { stream_id, talker, listeners }
    }
}

} // verus!
