use vstd::prelude::*;
use crate::entity::domain::business_database_tables::Memo;

verus! {

/// A memo as a response shows it.
#[derive(Clone, Debug)]
pub struct MemoVO {
    pub id: Option<u64>,
    pub organize: Option<u64>,
    pub source: Option<String>,
    pub title: Option<String>,
    pub content: Option<String>,
    pub create_time: Option<String>,
    pub update_time: Option<String>,
}


impl vstd::std_specs::convert::FromSpecImpl<Memo> for MemoVO {
    open spec fn obeys_from_spec() -> bool {
        true
    }

    open spec fn from_spec(arg: Memo) -> MemoVO {
        MemoVO { id: arg.id, organize: arg.organize, source: arg.source, title: arg.title, content: arg.content, create_time: arg.create_time, update_time: arg.update_time }
    }
}

impl From<Memo> for MemoVO {
    /// Shows a memo: every field is carried over.
    fn from(arg: Memo) -> (vo: MemoVO) {
        MemoVO { id: arg.id, organize: arg.organize, source: arg.source, title: arg.title, content: arg.content, create_time: arg.create_time, update_time: arg.update_time }
    }
}

} // verus!
