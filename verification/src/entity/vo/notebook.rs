use vstd::prelude::*;
use crate::entity::domain::business_database_tables::NoteBook;

verus! {

/// A notebook as a response shows it.
#[derive(Clone, Debug)]
pub struct NoteBookVO {
    pub id: Option<u64>,
    pub name: Option<String>,
    pub organize: Option<u64>,
    pub source: Option<String>,
    pub status: Option<u32>,
    pub descript: Option<String>,
    pub notes_count: Option<u64>,
}


impl vstd::std_specs::convert::FromSpecImpl<NoteBook> for NoteBookVO {
    open spec fn obeys_from_spec() -> bool {
        true
    }

    open spec fn from_spec(arg: NoteBook) -> NoteBookVO {
        NoteBookVO { id: arg.id, name: arg.name, organize: arg.organize, source: arg.source, status: arg.status, descript: arg.descript, notes_count: None }
    }
}

impl From<NoteBook> for NoteBookVO {
    /// Shows a notebook; its note count is left unset.
    fn from(arg: NoteBook) -> (vo: NoteBookVO) {
        NoteBookVO { id: arg.id, name: arg.name, organize: arg.organize, source: arg.source, status: arg.status, descript: arg.descript, notes_count: None }
    }
}

} // verus!
