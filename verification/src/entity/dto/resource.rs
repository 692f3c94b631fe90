use vstd::prelude::*;

verus! {

/// A stored resource as a request carries it.
#[derive(Clone, Debug)]
pub struct ResourceDTO {
    pub id: Option<u64>,
    pub name: Option<String>,
    pub suffix: Option<String>,
    pub size: Option<u64>,
    pub del: Option<i32>,
    pub create_user: Option<String>,
    pub create_time: Option<String>,
}

} // verus!
