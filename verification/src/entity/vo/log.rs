use vstd::prelude::*;
use crate::entity::domain::primary_database_tables::Log;

verus! {

/// An operation log entry as a response shows it.
#[derive(Clone, Debug)]
pub struct LogVO {
    pub id: Option<u64>,
    pub user: Option<String>,
    pub category: Option<String>,
    pub ip: Option<String>,
    pub city: Option<String>,
    pub date: Option<String>,
}


impl vstd::std_specs::convert::FromSpecImpl<Log> for LogVO {
    open spec fn obeys_from_spec() -> bool {
        true
    }

    open spec fn from_spec(arg: Log) -> LogVO {
        LogVO { id: arg.id, user: arg.user, category: arg.category, ip: arg.ip, city: arg.city, date: arg.date }
    }
}

impl From<Log> for LogVO {
    /// Shows a log entry: every field but the organization is carried over.
    fn from(arg: Log) -> (vo: LogVO) {
        LogVO { id: arg.id, user: arg.user, category: arg.category, ip: arg.ip, city: arg.city, date: arg.date }
    }
}

} // verus!
