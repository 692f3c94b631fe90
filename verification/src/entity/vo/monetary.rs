use vstd::prelude::*;
use crate::entity::domain::financial_database_tables::Monetary;

verus! {

/// A currency as a response shows it.
#[derive(Clone, Debug)]
pub struct MonetaryVO {
    pub id: Option<u64>,
    pub name: Option<String>,
    pub abbreviate: Option<String>,
    pub symbol: Option<String>,
}


impl vstd::std_specs::convert::FromSpecImpl<Monetary> for MonetaryVO {
    open spec fn obeys_from_spec() -> bool {
        true
    }

    open spec fn from_spec(arg: Monetary) -> MonetaryVO {
        MonetaryVO { id: arg.id, name: arg.name, abbreviate: arg.abbreviate, symbol: arg.symbol }
    }
}

impl From<Monetary> for MonetaryVO {
    /// Shows a currency: every field is carried over.
    fn from(arg: Monetary) -> (vo: MonetaryVO) {
        MonetaryVO { id: arg.id, name: arg.name, abbreviate: arg.abbreviate, symbol: arg.symbol }
    }
}

} // verus!
