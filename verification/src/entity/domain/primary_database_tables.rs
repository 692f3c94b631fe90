use vstd::prelude::*;

verus! {

/// A user account.
#[derive(Clone, Debug)]
pub struct User {
    pub account: Option<String>,
    pub name: Option<String>,
    pub password: Option<String>,
    pub sex: Option<String>,
    pub qq: Option<String>,
    pub email: Option<String>,
    pub phone: Option<String>,
    pub birthday: Option<String>,
    pub hometown: Option<String>,
    pub autograph: Option<String>,
    pub logo: Option<String>,
    pub background: Option<u64>,
    pub organize_id: Option<u64>,
    pub state: Option<u32>,
    pub create_time: Option<String>,
    pub update_time: Option<String>,
}

/// An operation log entry.
#[derive(Clone, Debug)]
pub struct Log {
    pub id: Option<u64>,
    pub organize: Option<u64>,
    pub user: Option<String>,
    pub category: Option<String>,
    pub ip: Option<String>,
    pub city: Option<String>,
    pub date: Option<String>,
}

/// A category of operation logs.
#[derive(Clone, Debug)]
pub struct LogType {
    pub category: Option<String>,
    pub detail: Option<String>,
}

/// A reminder plan.
#[derive(Clone, Debug)]
pub struct Plan {
    pub id: Option<u64>,
    pub standard_time: Option<String>,
    pub cycle: Option<u32>,
    pub unit: Option<u32>,
    pub title: Option<String>,
    pub content: Option<String>,
    pub next_exec_time: Option<String>,
    pub organize: Option<u64>,
    pub user: Option<String>,
    pub display: Option<u32>,
    pub create_time: Option<String>,
    pub update_time: Option<String>,
}

/// An archived occurrence of a reminder plan.
#[derive(Clone, Debug)]
pub struct PlanArchive {
    pub id: Option<u64>,
    pub status: Option<u32>,
    pub title: Option<String>,
    pub content: Option<String>,
    pub archive_time: Option<String>,
    pub organize: Option<u64>,
    pub user: Option<String>,
    pub display: Option<u32>,
    pub create_time: Option<String>,
    pub update_time: Option<String>,
}

/// A database backup record.
#[derive(Clone, Debug)]
pub struct DbDumpLog {
    pub id: Option<u64>,
    pub url: Option<String>,
    pub archive_date: Option<String>,
    pub execute_data: Option<String>,
}


/// A stored resource.
#[derive(Clone, Debug)]
pub struct Resource {
    pub id: Option<u64>,
    pub name: Option<String>,
    pub suffix: Option<String>,
    pub size: Option<u64>,
    pub del: Option<i32>,
    pub create_user: Option<String>,
    pub create_time: Option<String>,
}

} // verus!
