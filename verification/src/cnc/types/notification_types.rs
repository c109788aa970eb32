//! What the CNC tells the CUCs when a computation, a configuration or a removal has ended.

use vstd::prelude::*;

verus! {

/// How one Stream fared.
#[derive(Debug)]
pub struct Stream {
    pub stream_id: String,
    /// 0 for success, 1 for failure.
    pub failure_code: u8,
}

/// What a [`Stream`] holds, as a mathematical value.
pub struct StreamModel {
    pub stream_id: Seq<char>,
    pub failure_code: u8,
}

impl DeepView for Stream {
    type V = StreamModel;

    open spec fn deep_view(&self) -> StreamModel {
        StreamModel {
            stream_id: self.stream_id.deep_view(),
            failure_code: self.failure_code.deep_view(),
        }
    }
}

impl Clone for Stream {
    fn clone(&self) -> (r: Self)
        ensures
            r.deep_view() == self.deep_view(),
    {
        let stream_id = self.stream_id.clone();
        Stream { stream_id, failure_code: self.failure_code }
    }
}

/// The Streams of one CUC that a notification reports on.
#[derive(Debug)]
pub struct Cuc {
    pub cuc_id: String,
    pub streams: Vec<Stream>,
}

/// What a [`Cuc`] holds, as a mathematical value.
pub struct CucModel {
    pub cuc_id: Seq<char>,
    pub streams: Seq<StreamModel>,
}

impl DeepView for Cuc {
    type V = CucModel;

    open spec fn deep_view(&self) -> CucModel {
        CucModel {
            cuc_id: self.cuc_id.deep_view(),
            streams: self.streams.deep_view(),
        }
    }
}

impl Clone for Cuc {
    fn clone(&self) -> (r: Self)
        ensures
            r.deep_view() == self.deep_view(),
    {
        let cuc_id = self.cuc_id.clone();
        let streams = self.streams.clone();
        proof {
            assert(streams.deep_view() =~= self.streams.deep_view());
        }
        Cuc { cuc_id, streams }
    }
}

/// The CUCs of one configuration domain that a notification reports on.
#[derive(Debug)]
pub struct Domain {
    pub domain_id: String,
    pub cucs: Vec<Cuc>,
}

/// What a [`Domain`] holds, as a mathematical value.
pub struct DomainModel {
    pub domain_id: Seq<char>,
    pub cucs: Seq<CucModel>,
}

impl DeepView for Domain {
    type V = DomainModel;

    open spec fn deep_view(&self) -> DomainModel {
        DomainModel {
            domain_id: self.domain_id.deep_view(),
            cucs: self.cucs.deep_view(),
        }
    }
}

impl Clone for Domain {
    fn clone(&self) -> (r: Self)
        ensures
            r.deep_view() == self.deep_view(),
    {
        let domain_id = self.domain_id.clone();
        let cucs = self.cucs.clone();
        proof {
            assert(cucs.deep_view() =~= self.cucs.deep_view());
        }
        Domain { domain_id, cucs }
    }
}

/// The body of a notification to the CUCs.
pub type NotificationContent = Vec<Domain>;

} // verus!
