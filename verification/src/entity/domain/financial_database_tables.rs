use vstd::prelude::*;
use crate::util::date_time::Day;
use crate::util::money::Amount;

verus! {

/// A journal: the transactions of one day in one currency, with their
/// income, outlay and total.
#[derive(Clone, Debug)]
pub struct Journal {
    pub id: Option<u64>,
    pub monetary_id: Option<u64>,
    pub income: Option<Amount>,
    pub outlay: Option<Amount>,
    pub means_id: Option<u64>,
    pub abstract_id: Option<u64>,
    pub total: Option<Amount>,
    pub remarks: Option<String>,
    pub archive_date: Option<Day>,
    pub organize: Option<u64>,
    pub source: Option<String>,
    pub create_time: Option<String>,
    pub update_time: Option<String>,
}

/// A line of a journal: an income (`"1"`) or an outlay (`"2"`).
#[derive(Clone, Debug)]
pub struct GeneralJournal {
    pub id: Option<u64>,
    pub journal_id: Option<u64>,
    pub flag: Option<String>,
    pub amount: Option<Amount>,
    pub remarks: Option<String>,
}

/// A currency.
#[derive(Clone, Debug)]
pub struct Monetary {
    pub id: Option<u64>,
    pub name: Option<String>,
    pub abbreviate: Option<String>,
    pub symbol: Option<String>,
}

/// A journal summary tag.
#[derive(Clone, Debug)]
pub struct Abstracts {
    pub id: Option<u64>,
    pub flag: Option<String>,
    pub tag: Option<String>,
}

/// A means of payment.
#[derive(Clone, Debug)]
pub struct PaymentMeans {
    pub id: Option<u64>,
    pub name: Option<String>,
}


} // verus!
