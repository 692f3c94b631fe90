use vstd::prelude::*;

verus! {

/// A count for one month.
#[derive(Clone, Debug)]
pub struct TotalPre6MonthVO {
    pub total_month: Option<String>,
    pub count: Option<i32>,
}


} // verus!
