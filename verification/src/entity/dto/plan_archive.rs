use vstd::prelude::*;

verus! {

/// An archived plan as a request carries it.
#[derive(Clone, Debug)]
pub struct PlanArchiveDTO {
    pub id: Option<u64>,
    pub title: Option<String>,
    pub content: Option<String>,
    pub notice_user: Option<String>,
    pub status: Option<u32>,
    pub archive_time: Option<String>,
    pub organize: Option<u64>,
    pub user: Option<String>,
    pub display: Option<u32>,
    pub create_time: Option<String>,
    pub update_time: Option<String>,
    pub token: Option<String>,
}

/// A page query over archived plans.
#[derive(Clone, Debug)]
pub struct PlanArchivePageDTO {
    pub id: Option<u64>,
    pub content: Option<String>,
    pub status: Option<u32>,
    pub archive_time: Option<String>,
    pub user: Option<String>,
    pub display: Option<u32>,
    pub page_no: Option<u64>,
    pub page_size: Option<u64>,
    pub begin_time: Option<String>,
    pub end_time: Option<String>,
    pub organize: Option<u64>,
}


} // verus!
