//! The tree that CUCs and the CNC exchange over the user/network interface
//! (IEEE 802.1Qdj, tsn-config-uni): domains, their CUCs and the Streams of each CUC.

use super::tsn_types::{
    GroupListener, GroupListenerModel, GroupStatusStream, GroupStatusStreamModel,
    GroupStatusTalkerListener, GroupStatusTalkerListenerModel, GroupTalker, GroupTalkerModel,
};
use vstd::prelude::*;

pub mod compute_streams;
pub mod remove_streams;
pub mod request_domain_id;
pub mod request_free_stream_id;

verus! {

/// Where a Stream stands in the CNC.
#[derive(Clone, Copy, Debug, PartialEq, Eq, Structural)]
pub enum StreamStatus {
    /// Requested, not yet configured in the network.
    Planned,
    /// Computed and configured in the network.
    Configured,
    /// Changed after it was requested or configured; waits for a new computation.
    Modified,
}

impl DeepView for StreamStatus {
    type V = StreamStatus;

    open spec fn deep_view(&self) -> StreamStatus {
        *self
    }
}

/// The Talker of a Stream: its request and what the scheduler decided for it.
#[derive(Debug)]
pub struct Talker {
    pub group_talker: GroupTalker,
    pub group_status_talker_listener: GroupStatusTalkerListener,
}

/// What a [`Talker`] holds, as a mathematical value.
pub struct TalkerModel {
    pub group_talker: GroupTalkerModel,
    pub group_status_talker_listener: GroupStatusTalkerListenerModel,
}

impl DeepView for Talker {
    type V = TalkerModel;

    open spec fn deep_view(&self) -> TalkerModel {
        TalkerModel {
            group_talker: self.group_talker.deep_view(),
            group_status_talker_listener: self.group_status_talker_listener.deep_view(),
        }
    }
}

impl Clone for Talker {
    fn clone(&self) -> (r: Self)
        ensures
            r.deep_view() == self.deep_view(),
    {
        let group_talker = self.group_talker.clone();
        let group_status_talker_listener = self.group_status_talker_listener.clone();
        Talker { group_talker, group_status_talker_listener }
    }
}

/// One Listener of a Stream: its request and what the scheduler decided for it.
#[derive(Debug)]
pub struct Listener {
    /// Key of the Listener within its Stream.
    pub index: u32,
    pub group_listener: GroupListener,
    pub group_status_talker_listener: GroupStatusTalkerListener,
}

/// What a [`Listener`] holds, as a mathematical value.
pub struct ListenerModel {
    pub index: u32,
    pub group_listener: GroupListenerModel,
    pub group_status_talker_listener: GroupStatusTalkerListenerModel,
}

impl DeepView for Listener {
    type V = ListenerModel;

    open spec fn deep_view(&self) -> ListenerModel {
        ListenerModel {
            index: self.index.deep_view(),
            group_listener: self.group_listener.deep_view(),
            group_status_talker_listener: self.group_status_talker_listener.deep_view(),
        }
    }
}

impl Clone for Listener {
    fn clone(&self) -> (r: Self)
        ensures
            r.deep_view() == self.deep_view(),
    {
        let group_listener = self.group_listener.clone();
        let group_status_talker_listener = self.group_status_talker_listener.clone();
        Listener { index: self.index, group_listener, group_status_talker_listener }
    }
}

/// A Stream: a flow of frames from one Talker to its Listeners.
#[derive(Debug)]
pub struct Stream {
    /// Identifies the Stream; see [`StreamIdTypeUpper`](super::tsn_types::StreamIdTypeUpper).
    pub stream_id: String,
    pub stream_status: StreamStatus,
    pub talker: Talker,
    pub listener: Vec<Listener>,
    pub group_status_stream: GroupStatusStream,
}

/// What a [`Stream`] holds, as a mathematical value.
pub struct StreamModel {
    pub stream_id: Seq<char>,
    pub stream_status: StreamStatus,
    pub talker: TalkerModel,
    pub listener: Seq<ListenerModel>,
    pub group_status_stream: GroupStatusStreamModel,
}

impl DeepView for Stream {
    type V = StreamModel;

    open spec fn deep_view(&self) -> StreamModel {
        StreamModel {
            stream_id: self.stream_id.deep_view(),
            stream_status: self.stream_status.deep_view(),
            talker: self.talker.deep_view(),
            listener: self.listener.deep_view(),
            group_status_stream: self.group_status_stream.deep_view(),
        }
    }
}

impl Clone for Stream {
    fn clone(&self) -> (r: Self)
        ensures
            r.deep_view() == self.deep_view(),
    {
        let stream_id = self.stream_id.clone();
        let talker = self.talker.clone();
        let listener = self.listener.clone();
        let group_status_stream = self.group_status_stream.clone();
        proof {
            assert(listener.deep_view() =~= self.listener.deep_view());
        }
        Stream {
            stream_id,
            stream_status: self.stream_status,
            talker,
            listener,
            group_status_stream,
        }
    }
}

/// A CUC and the Streams that it requested.
#[derive(Debug)]
pub struct Cuc {
    pub cuc_id: String,
    pub stream: Vec<Stream>,
}

/// What a [`Cuc`] holds, as a mathematical value.
pub struct CucModel {
    pub cuc_id: Seq<char>,
    pub stream: Seq<StreamModel>,
}

impl DeepView for Cuc {
    type V = CucModel;

    open spec fn deep_view(&self) -> CucModel {
        CucModel {
            cuc_id: self.cuc_id.deep_view(),
            stream: self.stream.deep_view(),
        }
    }
}

impl Clone for Cuc {
    fn clone(&self) -> (r: Self)
        ensures
            r.deep_view() == self.deep_view(),
    {
        let cuc_id = self.cuc_id.clone();
        let stream = self.stream.clone();
        proof {
            assert(stream.deep_view() =~= self.stream.deep_view());
        }
        Cuc { cuc_id, stream }
    }
}

/// A configuration domain and the CUCs located in it.
#[derive(Debug)]
pub struct Domain {
    pub domain_id: String,
    /// Whether the CNC function is switched on for the domain.
    pub cnc_enabled: bool,
    pub cuc: Vec<Cuc>,
}

/// What a [`Domain`] holds, as a mathematical value.
pub struct DomainModel {
    pub domain_id: Seq<char>,
    pub cnc_enabled: bool,
    pub cuc: Seq<CucModel>,
}

impl DeepView for Domain {
    type V = DomainModel;

    open spec fn deep_view(&self) -> DomainModel {
        DomainModel {
            domain_id: self.domain_id.deep_view(),
            cnc_enabled: self.cnc_enabled.deep_view(),
            cuc: self.cuc.deep_view(),
        }
    }
}

impl Clone for Domain {
    fn clone(&self) -> (r: Self)
        ensures
            r.deep_view() == self.deep_view(),
    {
        let domain_id = self.domain_id.clone();
        let cuc = self.cuc.clone();
        proof {
            assert(cuc.deep_view() =~= self.cuc.deep_view());
        }
        Domain { domain_id, cnc_enabled: self.cnc_enabled, cuc }
    }
}

/// The whole user/network interface tree: every configuration domain.
#[derive(Debug)]
pub struct TsnUni {
    pub domain: Vec<Domain>,
}

/// What a [`TsnUni`] holds, as a mathematical value.
pub struct TsnUniModel {
    pub domain: Seq<DomainModel>,
}

impl DeepView for TsnUni {
    type V = TsnUniModel;

    open spec fn deep_view(&self) -> TsnUniModel {
        TsnUniModel {
            domain: self.domain.deep_view(),
        }
    }
}

impl Clone for TsnUni {
    fn clone(&self) -> (r: Self)
        ensures
            r.deep_view() == self.deep_view(),
    {
        let domain = self.domain.clone();
        proof {
            assert(domain.deep_view() =~= self.domain.deep_view());
        }
        TsnUni { domain }
    }
}

} // verus!
