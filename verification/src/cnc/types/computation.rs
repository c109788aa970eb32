//! The kinds of compute request.

use super::uni_types::compute_streams::{Domain, DomainModel};
use vstd::prelude::*;

verus! {

/// A request to compute and configure Streams.
#[derive(Debug)]
pub enum ComputationType {
    /// Every Stream of the named CUCs, or the listed ones where a list is given.
    All(Vec<Domain>),
    /// Of those, the Streams that are planned or modified.
    PlannedAndModified(Vec<Domain>),
    /// The listed Streams of the named CUCs.
    List(Vec<Domain>),
}

/// What a [`ComputationType`] holds, as a mathematical value.
pub enum ComputationTypeModel {
    All(Seq<DomainModel>),
    PlannedAndModified(Seq<DomainModel>),
    List(Seq<DomainModel>),
}

impl DeepView for ComputationType {
    type V = ComputationTypeModel;

    open spec fn deep_view(&self) -> ComputationTypeModel {
        match self {
            ComputationType::All(x) => ComputationTypeModel::All(x.deep_view()),
            ComputationType::PlannedAndModified(x) => {
                ComputationTypeModel::PlannedAndModified(x.deep_view())
            },
            ComputationType::List(x) => ComputationTypeModel::List(x.deep_view()),
        }
    }
}

impl Clone for ComputationType {
    fn clone(&self) -> (r: Self)
        ensures
            r.deep_view() == self.deep_view(),
    {
        match self {
            ComputationType::All(x) => {
                let y = x.clone();
                proof {
                    assert(y.deep_view() =~= x.deep_view());
                }
                ComputationType::All(y)
            },
            ComputationType::PlannedAndModified(x) => {
                let y = x.clone();
                proof {
                    assert(y.deep_view() =~= x.deep_view());
                }
                ComputationType::PlannedAndModified(y)
            },
            ComputationType::List(x) => {
                let y = x.clone();
                proof {
                    assert(y.deep_view() =~= x.deep_view());
                }
                ComputationType::List(y)
            },
        }
    }
}

} // verus!
