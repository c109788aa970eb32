//! Arguments and result of the requests that start a computation: for listed Streams, for
//! planned and modified Streams, or for all Streams.

use vstd::prelude::*;

verus! {

/// A CUC of a request, with the Streams that the request is about.
#[derive(Debug)]
pub struct CucElement {
    pub cuc_id: String,
    /// The Streams asked for; `None` asks for every Stream of the CUC.
    pub stream_list: Option<Vec<String>>,
}

/// What a [`CucElement`] holds, as a mathematical value.
pub struct CucElementModel {
    pub cuc_id: Seq<char>,
    pub stream_list: Option<Seq<Seq<char>>>,
}

impl DeepView for CucElement {
    type V = CucElementModel;

    open spec fn deep_view(&self) -> CucElementModel {
        CucElementModel {
            cuc_id: self.cuc_id.deep_view(),
            stream_list: self.stream_list.deep_view(),
        }
    }
}

impl Clone for CucElement {
    fn clone(&self) -> (r: Self)
        ensures
            r.deep_view() == self.deep_view(),
    {
        let cuc_id = self.cuc_id.clone();
        let stream_list = self.stream_list.clone();
        proof {
            assert(stream_list.deep_view() =~= self.stream_list.deep_view());
        }
        CucElement { cuc_id, stream_list }
    }
}

/// A configuration domain of a request, with the CUCs that the request is about.
#[derive(Debug)]
pub struct Domain {
    pub domain_id: String,
    pub cuc: Vec<CucElement>,
}

/// What a [`Domain`] holds, as a mathematical value.
pub struct DomainModel {
    pub domain_id: Seq<char>,
    pub cuc: Seq<CucElementModel>,
}

impl DeepView for Domain {
    type V = DomainModel;

    open spec fn deep_view(&self) -> DomainModel {
        DomainModel {
            domain_id: self.domain_id.deep_view(),
            cuc: self.cuc.deep_view(),
        }
    }
}

impl Clone for Domain {
    fn clone(&self) -> (r: Self)
        ensures
            r.deep_view() == self.deep_view(),
    {
        let domain_id = self.domain_id.clone();
        let cuc = self.cuc.clone();
        proof {
            assert(cuc.deep_view() =~= self.cuc.deep_view());
        }
        Domain { domain_id, cuc }
    }
}

/// What a compute request names: domains, their CUCs and the Streams of each.
pub type Input = Vec<Domain>;

/// The answer to a compute request. It says whether the computation was started, not how it
/// ended; the notifications tell that.
pub type Output = String;

} // verus!
