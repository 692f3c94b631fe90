use vstd::prelude::*;
use crate::entity::domain::financial_database_tables::PaymentMeans;

verus! {

/// A means of payment as a response shows it.
#[derive(Clone, Debug)]
pub struct PaymentMeansVO {
    pub id: Option<u64>,
    pub name: Option<String>,
}


impl vstd::std_specs::convert::FromSpecImpl<PaymentMeans> for PaymentMeansVO {
    open spec fn obeys_from_spec() -> bool {
        true
    }

    open spec fn from_spec(arg: PaymentMeans) -> PaymentMeansVO {
        PaymentMeansVO { id: arg.id, name: arg.name }
    }
}

impl From<PaymentMeans> for PaymentMeansVO {
    /// Shows a means of payment: every field is carried over.
    fn from(arg: PaymentMeans) -> (vo: PaymentMeansVO) {
        PaymentMeansVO { id: arg.id, name: arg.name }
    }
}

} // verus!
