use vstd::prelude::*;
use crate::entity::domain::business_database_tables::News;

verus! {

/// A news post as a response shows it.
#[derive(Clone, Debug)]
pub struct NewsVO {
    pub id: Option<u64>,
    pub topic: Option<String>,
    pub label: Option<String>,
    pub abstracts: Option<String>,
    pub content: Option<String>,
    pub organize: Option<u64>,
    pub source: Option<String>,
    pub create_time: Option<String>,
    pub update_time: Option<String>,
}


impl vstd::std_specs::convert::FromSpecImpl<News> for NewsVO {
    open spec fn obeys_from_spec() -> bool {
        true
    }

    open spec fn from_spec(arg: News) -> NewsVO {
        NewsVO { id: arg.id, topic: arg.topic, label: arg.label, abstracts: arg.abstracts, content: arg.content, organize: arg.organize, source: arg.source, create_time: arg.create_time, update_time: arg.update_time }
    }
}

impl From<News> for NewsVO {
    /// Shows a news post: every field is carried over.
    fn from(arg: News) -> (vo: NewsVO) {
        NewsVO { id: arg.id, topic: arg.topic, label: arg.label, abstracts: arg.abstracts, content: arg.content, organize: arg.organize, source: arg.source, create_time: arg.create_time, update_time: arg.update_time }
    }
}

} // verus!
