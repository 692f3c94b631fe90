use vstd::prelude::*;
use crate::entity::dto::general_journal::GeneralJournalDTO;
use crate::util::date_time::Day;

verus! {

/// A journal as a request carries it, with its lines.
#[derive(Clone, Debug)]
pub struct JournalDTO {
    pub id: Option<u64>,
    pub monetary_id: Option<u64>,
    pub means_id: Option<u64>,
    pub amount_id: Option<u64>,
    pub remarks: Option<String>,
    pub archive_date: Option<Day>,
    pub details: Option<Vec<GeneralJournalDTO>>,
}

} // verus!
