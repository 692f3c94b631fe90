use vstd::prelude::*;

verus! {

/// A log category as a response shows it.
#[derive(Clone, Debug)]
pub struct LogTypeVO {
    pub category: Option<String>,
    pub detail: Option<String>,
}


} // verus!
