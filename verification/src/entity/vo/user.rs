use vstd::prelude::*;
use crate::entity::domain::primary_database_tables::User;

verus! {

/// A user as a response shows it.
#[derive(Clone, Debug)]
pub struct UserVO {
    pub account: Option<String>,
    pub name: Option<String>,
    pub password: Option<String>,
    pub sex: Option<String>,
    pub qq: Option<String>,
    pub email: Option<String>,
    pub phone: Option<String>,
    pub birthday: Option<String>,
    pub hometown: Option<String>,
    pub autograph: Option<String>,
    pub logo: Option<String>,
    pub background: Option<u64>,
    pub organize_id: Option<u64>,
    pub state: Option<u32>,
    pub create_time: Option<String>,
    pub update_time: Option<String>,
    pub background_url: Option<String>,
}

/// A user of the caller's organization.
#[derive(Clone, Debug)]
pub struct UserOwnOrganizeVO {
    pub account: Option<String>,
    pub name: Option<String>,
}


impl vstd::std_specs::convert::FromSpecImpl<User> for UserVO {
    open spec fn obeys_from_spec() -> bool {
        true
    }

    open spec fn from_spec(arg: User) -> UserVO {
        UserVO { account: arg.account, name: arg.name, password: None, sex: arg.sex, qq: arg.qq, email: arg.email, phone: arg.phone, birthday: arg.birthday, hometown: arg.hometown, autograph: arg.autograph, logo: arg.logo, background: arg.background, organize_id: arg.organize_id, state: arg.state, create_time: arg.create_time, update_time: arg.update_time, background_url: None }
    }
}

impl From<User> for UserVO {
    /// Shows a user: the password is withheld and the wallpaper address is left unset.
    fn from(arg: User) -> (vo: UserVO) {
        UserVO { account: arg.account, name: arg.name, password: None, sex: arg.sex, qq: arg.qq, email: arg.email, phone: arg.phone, birthday: arg.birthday, hometown: arg.hometown, autograph: arg.autograph, logo: arg.logo, background: arg.background, organize_id: arg.organize_id, state: arg.state, create_time: arg.create_time, update_time: arg.update_time, background_url: None }
    }
}

} // verus!
