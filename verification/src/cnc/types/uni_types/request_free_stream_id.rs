//! Arguments and result of the request for an unused Stream id.

use vstd::prelude::*;

verus! {

/// Who asks for a free Stream id, and in which domain.
#[derive(Debug)]
pub struct Input {
    pub domain_id: String,
    pub cuc_id: String,
}

/// What a [`Input`] holds, as a mathematical value.
pub struct InputModel {
    pub domain_id: Seq<char>,
    pub cuc_id: Seq<char>,
}

impl DeepView for Input {
    type V = InputModel;

    open spec fn deep_view(&self) -> InputModel {
        InputModel {
            domain_id: self.domain_id.deep_view(),
            cuc_id: self.cuc_id.deep_view(),
        }
    }
}

impl Clone for Input {
    fn clone(&self) -> (r: Self)
        ensures
            r.deep_view() == self.deep_view(),
    {
        let domain_id = self.domain_id.clone();
        let cuc_id = self.cuc_id.clone();
        Input { domain_id, cuc_id }
    }
}

/// A Stream id that no Stream of the tree has.
pub type Output = String;

} // verus!
