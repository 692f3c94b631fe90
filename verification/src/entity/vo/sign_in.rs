use vstd::prelude::*;
use crate::entity::vo::log::LogVO;
use crate::entity::vo::user::UserVO;

verus! {

/// What a successful sign-in returns.
#[derive(Clone, Debug)]
pub struct SignInVO {
    pub user: Option<UserVO>,
    pub access_token: String,
    pub plan: Option<Vec<std::collections::HashMap<String, String>>>,
    pub log: Option<LogVO>,
}


} // verus!
