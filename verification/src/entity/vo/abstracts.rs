use vstd::prelude::*;
use crate::entity::domain::financial_database_tables::Abstracts;

verus! {

/// A journal summary tag as a response shows it.
#[derive(Clone, Debug)]
pub struct AbstractsVO {
    pub id: Option<u64>,
    pub flag: Option<String>,
    pub tag: Option<String>,
}


impl vstd::std_specs::convert::FromSpecImpl<Abstracts> for AbstractsVO {
    open spec fn obeys_from_spec() -> bool {
        true
    }

    open spec fn from_spec(arg: Abstracts) -> AbstractsVO {
        AbstractsVO { id: arg.id, flag: arg.flag, tag: arg.tag }
    }
}

impl From<Abstracts> for AbstractsVO {
    /// Shows a summary tag: every field is carried over.
    fn from(arg: Abstracts) -> (vo: AbstractsVO) {
        AbstractsVO { id: arg.id, flag: arg.flag, tag: arg.tag }
    }
}

} // verus!
