use vstd::prelude::*;
use crate::util::money::Amount;

verus! {

/// A journal line as a request carries it.
#[derive(Clone, Debug)]
pub struct GeneralJournalDTO {
    pub id: Option<u64>,
    pub journal_id: Option<u64>,
    pub flag: Option<String>,
    pub amount: Option<Amount>,
    pub remarks: Option<String>,
}

} // verus!
