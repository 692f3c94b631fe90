use vstd::prelude::*;

verus! {

/// A log category as a request carries it.
#[derive(Clone, Debug)]
pub struct LogTypeDTO {
    pub category: Option<String>,
    pub detail: Option<String>,
}


} // verus!
