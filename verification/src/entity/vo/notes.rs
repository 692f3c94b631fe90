use vstd::prelude::*;
use crate::entity::domain::business_database_tables::Notes;

verus! {

/// A note as a response shows it.
#[derive(Clone, Debug)]
pub struct NotesVO {
    pub id: Option<u64>,
    pub notebook_id: Option<u64>,
    pub label: Option<String>,
    pub topic: Option<String>,
    pub abstracts: Option<String>,
    pub path: Option<String>,
    pub content: Option<String>,
    pub source: Option<String>,
    pub create_time: Option<String>,
    pub update_time: Option<String>,
}


impl NotesVO {
    /// Shows a note with the given body text in place of the stored one; the
    /// path is left unset.
    pub fn from(arg: Notes, content: String) -> (vo: NotesVO)
        ensures
            vo == (NotesVO {
                id: arg.id,
                notebook_id: arg.notebook_id,
                label: arg.label,
                topic: arg.topic,
                abstracts: arg.abstracts,
                path: None,
                content: Some(content),
                source: arg.source,
                create_time: arg.create_time,
                update_time: arg.update_time,
            }),
    {
        NotesVO {
            id: arg.id,
            notebook_id: arg.notebook_id,
            topic: arg.topic,
            label: arg.label,
            abstracts: arg.abstracts,
            path: None,
            content: Some(content),
            source: arg.source,
            create_time: arg.create_time,
            update_time: arg.update_time,
        }
    }
}

} // verus!
