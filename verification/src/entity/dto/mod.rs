//! Request payloads.
pub mod db_dump_log;
pub mod files;
pub mod general_journal;
pub mod journal;
pub mod log_type;
pub mod memo;
pub mod news;
pub mod notebook;
pub mod notes;
pub mod picture_base64;
pub mod pictures;
pub mod plan;
pub mod plan_archive;
pub mod resource;
pub mod sign_in;
pub mod user;

use vstd::prelude::*;

verus! {

/// A request that carries no payload.
#[derive(Clone, Debug)]
pub struct EmptyDTO {}

} // verus!
