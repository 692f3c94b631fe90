use vstd::prelude::*;

verus! {

/// A notebook as a request carries it.
#[derive(Clone, Debug)]
pub struct NoteBookDTO {
    pub id: Option<u64>,
    pub name: Option<String>,
    pub organize: Option<u64>,
    pub source: Option<String>,
    pub status: Option<u32>,
    pub descript: Option<String>,
}

} // verus!
