use vstd::prelude::*;

verus! {

/// A journal detail line as a response shows it.
#[derive(Clone, Debug)]
pub struct GeneralJournalVO {
    pub id: Option<u64>,
    pub journal_id: Option<u64>,
    pub flag: Option<String>,
    pub amount: Option<String>,
    pub remarks: Option<String>,
}

/// A journal detail line with its archive date.
#[derive(Clone, Debug)]
pub struct GeneralJournalCollectVO {
    pub id: Option<u64>,
    pub journal_id: Option<u64>,
    pub flag: Option<String>,
    pub amount: Option<String>,
    pub remarks: Option<String>,
    pub archive_date: Option<String>,
}


} // verus!
