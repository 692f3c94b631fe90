use vstd::prelude::*;
use crate::entity::domain::business_database_tables::Files;

verus! {

/// A file as a response shows it.
#[derive(Clone, Debug)]
pub struct FilesVO {
    pub id: Option<u64>,
    pub uid: Option<String>,
    pub file_name: Option<String>,
    pub file_url: Option<String>,
    pub file_type: Option<String>,
    pub organize: Option<u64>,
    pub source: Option<String>,
    pub status: Option<u32>,
    pub create_time: Option<String>,
    pub update_time: Option<String>,
}


impl vstd::std_specs::convert::FromSpecImpl<Files> for FilesVO {
    open spec fn obeys_from_spec() -> bool {
        true
    }

    open spec fn from_spec(arg: Files) -> FilesVO {
        FilesVO { id: arg.id, uid: arg.uid, file_name: arg.file_name, file_url: arg.file_url, file_type: arg.file_type, organize: arg.organize, source: arg.source, status: arg.status, create_time: arg.create_time, update_time: arg.update_time }
    }
}

impl From<Files> for FilesVO {
    /// Shows a file: every field is carried over.
    fn from(arg: Files) -> (vo: FilesVO) {
        FilesVO { id: arg.id, uid: arg.uid, file_name: arg.file_name, file_url: arg.file_url, file_type: arg.file_type, organize: arg.organize, source: arg.source, status: arg.status, create_time: arg.create_time, update_time: arg.update_time }
    }
}

} // verus!
