use vstd::prelude::*;
use crate::entity::vo::total_pre_6_month::TotalPre6MonthVO;

verus! {

/// Activity statistics of the operation logs.
#[derive(Clone, Debug)]
pub struct TotalLogVO {
    pub avg: Option<u64>,
    pub count: Option<u64>,
    pub log6: Option<Vec<TotalPre6MonthVO>>,
}


} // verus!
