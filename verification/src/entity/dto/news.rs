use vstd::prelude::*;

verus! {

/// A news post as a request carries it.
#[derive(Clone, Debug)]
pub struct NewsDTO {
    pub id: Option<u64>,
    pub topic: Option<String>,
    pub label: Option<String>,
    pub content: Option<String>,
    pub organize: Option<u64>,
    pub source: Option<String>,
    pub create_time: Option<String>,
    pub update_time: Option<String>,
}


} // verus!
