use vstd::prelude::*;
use crate::entity::domain::primary_database_tables::Resource;
use crate::entity::dto::resource::ResourceDTO;
use crate::error::Error;
use crate::util;
use crate::util::{blank, is_blank};

verus! {

/// The service of stored resources.
pub struct ResourceService {}

impl ResourceService {
    /// The record of a resource uploaded at `now`: name, extension and size
    /// must be given; the resource is not deleted and belongs to the
    /// uploading account.
    pub fn add(&self, arg: &ResourceDTO, now: String) -> (r: Result<Resource, Error>)
        ensures
            blank(arg.suffix) || blank(arg.name) || arg.size is None ==> (r matches Err(e) && e.message()
                == "文件名和文件类型不能为空!"@ && e.code() == util::CODE_FAIL),
            !(blank(arg.suffix) || blank(arg.name) || arg.size is None) ==> (r matches Ok(x) && x == (Resource {
                id: None,
                name: arg.name,
                suffix: arg.suffix,
                size: arg.size,
                del: Some(0i32),
                create_user: x.create_user,
                create_time: Some(now),
            }) && (x.create_user matches Some(u) && u@ == "saya"@)),
    {
        if is_blank(&arg.suffix) || is_blank(&arg.name) || arg.size.is_none() {
            return Err(Error::from_message("文件名和文件类型不能为空!"));
        }
        Ok(
            Resource {
                id: None,
                name: arg.name.clone(),
                suffix: arg.suffix.clone(),
                size: arg.size,
                del: Some(0),
                create_user: Some(String::from_str("saya")),
                create_time: Some(now),
            },
        )
    }
}

} // verus!
