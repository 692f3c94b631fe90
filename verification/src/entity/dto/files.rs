use vstd::prelude::*;

verus! {

/// A file as a request carries it.
#[derive(Clone, Debug)]
pub struct FilesDTO {
    pub id: Option<u64>,
    pub uid: Option<String>,
    pub file_name: Option<String>,
    pub file_url: Option<String>,
    pub file_type: Option<String>,
    pub organize: Option<u64>,
    pub source: Option<String>,
    pub status: Option<u32>,
    pub create_time: Option<String>,
    pub update_time: Option<String>,
}


} // verus!
