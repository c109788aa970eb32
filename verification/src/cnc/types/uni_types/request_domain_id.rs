//! Arguments and result of the request for the domain of a CUC.

use vstd::prelude::*;

verus! {

/// The CUC that asks.
pub type Input = String;

/// The id of the configuration domain that the CUC belongs to.
pub type Output = String;

} // verus!
