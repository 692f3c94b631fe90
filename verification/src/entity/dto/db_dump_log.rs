use vstd::prelude::*;

verus! {

/// A database backup record as a request carries it.
#[derive(Clone, Debug)]
pub struct DbDumpLogDTO {
    pub id: Option<u64>,
    pub url: Option<String>,
    pub archive_date: Option<String>,
    pub execute_data: Option<String>,
}

/// A page query over database backup records.
#[derive(Clone, Debug)]
pub struct DbDumpLogPageDTO {
    pub id: Option<u64>,
    pub url: Option<String>,
    pub page_no: Option<u64>,
    pub page_size: Option<u64>,
    pub begin_time: Option<String>,
    pub end_time: Option<String>,
}


} // verus!
