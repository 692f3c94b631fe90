use vstd::prelude::*;

verus! {

/// A note as a request carries it.
#[derive(Clone, Debug)]
pub struct NotesDTO {
    pub id: Option<u64>,
    pub notebook_id: Option<u64>,
    pub label: Option<String>,
    pub topic: Option<String>,
    pub content: Option<String>,
    pub source: Option<String>,
    pub create_time: Option<String>,
    pub update_time: Option<String>,
}


} // verus!
