use vstd::prelude::*;
use crate::entity::domain::primary_database_tables::DbDumpLog;

verus! {

/// A database backup record as a response shows it.
#[derive(Clone, Debug)]
pub struct DbDumpLogVO {
    pub id: Option<u64>,
    pub url: Option<String>,
    pub archive_date: Option<String>,
    pub execute_data: Option<String>,
}


impl vstd::std_specs::convert::FromSpecImpl<DbDumpLog> for DbDumpLogVO {
    open spec fn obeys_from_spec() -> bool {
        true
    }

    open spec fn from_spec(arg: DbDumpLog) -> DbDumpLogVO {
        DbDumpLogVO { id: arg.id, url: arg.url, archive_date: arg.archive_date, execute_data: arg.execute_data }
    }
}

impl From<DbDumpLog> for DbDumpLogVO {
    /// Shows a backup record: every field is carried over.
    fn from(arg: DbDumpLog) -> (vo: DbDumpLogVO) {
        DbDumpLogVO { id: arg.id, url: arg.url, archive_date: arg.archive_date, execute_data: arg.execute_data }
    }
}

} // verus!
