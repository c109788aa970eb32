//! Arguments and result of the action that removes Streams.

use vstd::prelude::*;

verus! {

/// The ids of the Streams to remove.
pub type Input = Vec<String>;

/// Whether the removal was carried out.
pub type Output = String;

} // verus!
