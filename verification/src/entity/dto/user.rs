use vstd::prelude::*;

verus! {

/// An account as a request carries it.
#[derive(Clone, Debug)]
pub struct UserDTO {
    pub account: Option<String>,
    pub name: Option<String>,
    pub password: Option<String>,
    pub sex: Option<String>,
    pub qq: Option<String>,
    pub email: Option<String>,
    pub phone: Option<String>,
    pub birthday: Option<String>,
    pub hometown: Option<String>,
    pub autograph: Option<String>,
    pub logo: Option<String>,
    pub background: Option<u64>,
    pub organize_id: Option<u64>,
    pub state: Option<u32>,
    pub token: Option<String>,
}

} // verus!
