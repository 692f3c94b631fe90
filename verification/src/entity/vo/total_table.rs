use vstd::prelude::*;

verus! {

/// The number of rows of one table.
#[derive(Clone, Debug)]
pub struct TotalTable {
    pub name: Option<String>,
    pub value: Option<i32>,
}


} // verus!
