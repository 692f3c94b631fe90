use vstd::prelude::*;
use crate::entity::table::primary_database_tables::Plan;

verus! {

/// A reminder plan as a response shows it.
#[derive(Clone, Debug)]
pub struct PlanVO {
    pub id: Option<u64>,
    pub standard_time: Option<String>,
    pub cycle: Option<u32>,
    pub unit: Option<u32>,
    pub title: Option<String>,
    pub content: Option<String>,
    pub next_exec_time: Option<String>,
    pub organize: Option<u64>,
    pub user: Option<String>,
    pub display: Option<u32>,
    pub create_time: Option<String>,
    pub update_time: Option<String>,
}


impl vstd::std_specs::convert::FromSpecImpl<Plan> for PlanVO {
    open spec fn obeys_from_spec() -> bool {
        true
    }

    open spec fn from_spec(arg: Plan) -> PlanVO {
        PlanVO { id: arg.id, standard_time: arg.standard_time, cycle: arg.cycle, unit: arg.unit, title: arg.title, content: arg.content, next_exec_time: arg.next_exec_time, organize: arg.organize, user: arg.user, display: arg.display, create_time: arg.create_time, update_time: arg.update_time }
    }
}

impl From<Plan> for PlanVO {
    /// Shows a plan: the fields it shares with the row are carried over.
    fn from(arg: Plan) -> (vo: PlanVO) {
        PlanVO { id: arg.id, standard_time: arg.standard_time, cycle: arg.cycle, unit: arg.unit, title: arg.title, content: arg.content, next_exec_time: arg.next_exec_time, organize: arg.organize, user: arg.user, display: arg.display, create_time: arg.create_time, update_time: arg.update_time }
    }
}

} // verus!
