use vstd::prelude::*;
use crate::claims::claims_text;
use crate::entity::domain::primary_database_tables::User;
use crate::entity::dto::sign_in::SignInDTO;
use crate::entity::dto::user::UserDTO;
use crate::entity::vo::jwt::{hs256_token, JWTToken, JWTTokenView};
use crate::entity::vo::sign_in::SignInVO;
use crate::entity::vo::user::UserVO;
use crate::error::Error;
use crate::service::system_service::{
    account_params_missing, account_taken_message, copy_user, disabled_state, encodes, initial_password,
    missing_account, missing_account_message, SystemService,
    shown_user, string_or_empty, text_or_empty,
};
use crate::util;
use crate::util::{blank, is_blank};

verus! {

/// The first account service, on tokens signed by the server.
pub struct UserService {}

/// The error of a user that does not exist: "用户:<account> 不存在<mark>".
pub open spec fn missing_user_message(account: Seq<char>, mark: Seq<char>) -> Seq<char> {
    "用户:"@ + account + " 不存在"@ + mark
}

/// The error of a user that does not exist.
fn missing_user(account: &str, mark: &str) -> (e: Error)
    ensures
        e.message() == missing_user_message(account@, mark@),
        e.code() == util::CODE_FAIL,
{
    let mut m = String::from_str("用户:");
    m.append(account);
    m.append(" 不存在");
    m.append(mark);
    Error::E(m, util::CODE_FAIL)
}

/// The claims that a sign-in of `user` from `ip` at `now` signs.
pub open spec fn sign_in_claims(user: User, ip: Seq<char>, now: i64) -> JWTTokenView {
    JWTTokenView {
        account: text_or_empty(user.account),
        name: text_or_empty(user.name),
        organize: match user.organize_id {
            Some(o) => o,
            None => 0,
        },
        ip: ip,
        city: "云南西双版纳"@,
        exp: now as usize,
    }
}

impl UserService {
    /// The record of a new account created at `now`: `taken` says whether
    /// the account exists already, `encode` encodes the password given (or
    /// `123456` where none is). Account, name,
    /// e-mail, phone and organization must be given.
    pub fn add<F: Fn(String) -> String>(&self, arg: &UserDTO, taken: bool, encode: F, now: String) -> (r: Result<
        User,
        Error,
    >)
        requires
            forall|p: String| call_requires(encode, (p,)),
        ensures
            account_params_missing(*arg) ==> (r matches Err(e) && e.message()
                == "账号、姓名、手机号、邮箱以及所属组织不能为空!"@ && e.code() == util::CODE_FAIL),
            !account_params_missing(*arg) && taken ==> (r matches Err(e) && e.message()
                == account_taken_message(arg.account.unwrap()@) && e.code() == util::CODE_FAIL),
            !account_params_missing(*arg) && !taken ==> (r matches Ok(u) && u.password matches Some(pw)
                && encodes(encode, initial_password(*arg), pw)),
            !account_params_missing(*arg) && !taken ==> r == Ok::<User, Error>(
                User {
                    account: arg.account,
                    name: arg.name,
                    password: r.unwrap().password,
                    sex: arg.sex,
                    qq: arg.qq,
                    email: arg.email,
                    phone: arg.phone,
                    birthday: arg.birthday,
                    hometown: arg.hometown,
                    autograph: arg.autograph,
                    logo: arg.logo,
                    background: arg.background,
                    organize_id: arg.organize_id,
                    state: Some(1u32),
                    create_time: Some(now),
                    update_time: None,
                },
            ),
    {
        if is_blank(&arg.account) || is_blank(&arg.name) || is_blank(&arg.email) || is_blank(&arg.phone)
            || arg.organize_id.is_none() {
            return Err(Error::from_message("账号、姓名、手机号、邮箱以及所属组织不能为空!"));
        }
        if taken {
            let mut m = String::from_str("账户:");
            m.append(string_or_empty(&arg.account).as_str());
            m.append("已存在!");
            return Err(Error::E(m, util::CODE_FAIL));
        }
        let encoded = encode(SystemService::user_add_password(arg));
        Ok(
            User {
                account: arg.account.clone(),
                name: arg.name.clone(),
                password: Some(encoded),
                sex: arg.sex.clone(),
                qq: arg.qq.clone(),
                email: arg.email.clone(),
                phone: arg.phone.clone(),
                birthday: arg.birthday.clone(),
                hometown: arg.hometown.clone(),
                autograph: arg.autograph.clone(),
                logo: arg.logo.clone(),
                background: arg.background,
                organize_id: arg.organize_id,
                state: Some(1),
                create_time: Some(now),
                update_time: None,
            },
        )
    }

    /// Checks a sign-in of `arg` against the stored account `user`;
    /// `password_matches` is whether the password given matches the stored
    /// one.
    pub fn login(&self, arg: &SignInDTO, user: &Option<User>, password_matches: bool) -> (r: Result<User, Error>)
        ensures
            blank(arg.account) || blank(arg.password) ==> (r matches Err(e) && e.message()
                == "账号和密码不能为空!"@ && e.code() == util::CODE_FAIL),
            !blank(arg.account) && !blank(arg.password) && user is None ==> (r matches Err(e)
                && e.message() == missing_account_message(arg.account.unwrap()@) && e.code()
                == util::CODE_FAIL),
            !blank(arg.account) && !blank(arg.password) && user is Some ==> (if disabled_state(
                user.unwrap().state,
            ) {
                r matches Err(e) && e.message() == "账户被禁用!"@ && e.code() == util::CODE_FAIL
            } else if user.unwrap().password is None {
                r matches Err(e) && e.message() == "错误的用户数据，密码为空!"@ && e.code()
                    == util::CODE_FAIL
            } else if !password_matches {
                r matches Err(e) && e.message() == "密码不正确!"@ && e.code() == util::CODE_FAIL
            } else {
                r == Ok::<User, Error>(user.unwrap())
            }),
    {
        if is_blank(&arg.account) || is_blank(&arg.password) {
            return Err(Error::from_message("账号和密码不能为空!"));
        }
        let u = match user {
            Some(u) => u,
            None => {
                let mut m = String::from_str("账号:");
                m.append(string_or_empty(&arg.account).as_str());
                m.append(" 不存在!");
                return Err(Error::E(m, util::CODE_FAIL));
            },
        };
        if u.state == Some(0u32) || u.state == Some(2u32) {
            return Err(Error::from_message("账户被禁用!"));
        }
        if u.password.is_none() {
            return Err(Error::from_message("错误的用户数据，密码为空!"));
        }
        if !password_matches {
            return Err(Error::from_message("密码不正确!"));
        }
        Ok(copy_user(u))
    }

    /// What a sign-in of `user` from `ip` at `now` (seconds since the epoch)
    /// returns: the user without password, and a token signed with `secret`
    /// whose claims are the user's account, name and organization, the
    /// address, the city recorded for every sign-in, and `now` as expiry.
    pub fn get_user_info(&self, user: &User, ip: String, now: i64, secret: &str) -> (r: Result<SignInVO, Error>)
        requires
            now >= 0,
        ensures
            r matches Ok(v) && v.user == Some(shown_user(*user)) && v.plan is None && v.log is None
                && v.access_token@ == hs256_token(claims_text(sign_in_claims(*user, ip@, now)), secret@),
    {
        let jwt = JWTToken {
            account: string_or_empty(&user.account),
            name: string_or_empty(&user.name),
            organize: match user.organize_id {
                Some(o) => o,
                None => 0,
            },
            ip,
            city: String::from_str("云南西双版纳"),
            exp: now as usize,
        };
        proof {
            assert(jwt@ == sign_in_claims(*user, ip@, now));
        }
        let token = match jwt.create_token(secret) {
            Ok(t) => t,
            Err(e) => {
                return Err(e);
            },
        };
        Ok(SignInVO { user: Some(UserVO::from(copy_user(user))), access_token: token, plan: None, log: None })
    }

    /// The record that changes the account `exist` at `now`: everything but
    /// the account name and creation time comes from the request; the
    /// password changes only where one is given, to its encoding by
    /// `encode`. The account must be given and exist.
    pub fn edit<F: Fn(String) -> String>(&self, arg: &UserDTO, exist: &Option<User>, encode: F, now: String) -> (r:
        Result<User, Error>)
        requires
            forall|p: String| call_requires(encode, (p,)),
        ensures
            blank(arg.account) ==> (r matches Err(e) && e.message() == "账号account不能为空!"@ && e.code()
                == util::CODE_FAIL),
            !blank(arg.account) && exist is None ==> (r matches Err(e) && e.message()
                == missing_user_message(arg.account.unwrap()@, "!"@) && e.code() == util::CODE_FAIL),
            !blank(arg.account) && exist is Some && arg.password is Some ==> (r matches Ok(u) && u.password matches Some(
                pw,
            ) && encodes(encode, arg.password.unwrap()@, pw)),
            !blank(arg.account) && exist is Some ==> r == Ok::<User, Error>(
                User {
                    account: exist.unwrap().account,
                    name: arg.name,
                    password: if arg.password is Some {
                        r.unwrap().password
                    } else {
                        exist.unwrap().password
                    },
                    sex: arg.sex,
                    qq: arg.qq,
                    email: arg.email,
                    phone: arg.phone,
                    birthday: arg.birthday,
                    hometown: arg.hometown,
                    autograph: arg.autograph,
                    logo: arg.logo,
                    background: arg.background,
                    organize_id: arg.organize_id,
                    state: arg.state,
                    create_time: exist.unwrap().create_time,
                    update_time: Some(now),
                },
            ),
    {
        if is_blank(&arg.account) {
            return Err(Error::from_message("账号account不能为空!"));
        }
        let old = match exist {
            Some(u) => u,
            None => {
                return Err(missing_user(string_or_empty(&arg.account).as_str(), "!"));
            },
        };
        let password = match &arg.password {
            Some(p) => Some(encode(p.clone())),
            None => old.password.clone(),
        };
        Ok(
            User {
                account: old.account.clone(),
                name: arg.name.clone(),
                password,
                sex: arg.sex.clone(),
                qq: arg.qq.clone(),
                email: arg.email.clone(),
                phone: arg.phone.clone(),
                birthday: arg.birthday.clone(),
                hometown: arg.hometown.clone(),
                autograph: arg.autograph.clone(),
                logo: arg.logo.clone(),
                background: arg.background,
                organize_id: arg.organize_id,
                state: arg.state,
                create_time: old.create_time.clone(),
                update_time: Some(now),
            },
        )
    }

    /// Whether an account may be deleted: its name must be given.
    pub fn remove(&self, account: &str) -> (r: Result<(), Error>)
        ensures
            account@.len() == 0 ==> (r matches Err(e) && e.message() == "account 不能为空！"@ && e.code()
                == util::CODE_FAIL),
            account@.len() > 0 ==> r is Ok,
    {
        if account.unicode_len() == 0 {
            return Err(Error::from_message("account 不能为空！"));
        }
        Ok(())
    }

    /// The account named in the request, as shown; `user` is what the
    /// lookup found.
    pub fn detail(&self, arg: &UserDTO, user: &Option<User>) -> (r: Result<UserVO, Error>)
        ensures
            user is None ==> (r matches Err(e) && e.message() == missing_user_message(
                text_or_empty(arg.account),
                "！"@,
            ) && e.code() == util::CODE_FAIL),
            user is Some ==> r == Ok::<UserVO, Error>(shown_user(user.unwrap())),
    {
        match user {
            Some(u) => Ok(UserVO::from(copy_user(u))),
            None => Err(missing_user(string_or_empty(&arg.account).as_str(), "！")),
        }
    }

    /// The account of the token's holder: `extracted` is what reading the
    /// token gave, `user` what the lookup of its account found. A refusal of
    /// the token is passed on with its message.
    pub fn get_user_info_by_token(&self, extracted: &Result<JWTToken, Error>, user: &Option<User>) -> (r: Result<
        User,
        Error,
    >)
        ensures
            extracted matches Err(e) ==> (r matches Err(f) && f.message() == e.message() && f.code()
                == util::CODE_FAIL),
            extracted matches Ok(t) ==> (user is None ==> (r matches Err(f) && f.message()
                == missing_account_message(t.account@) && f.code() == util::CODE_FAIL)),
            extracted is Ok && user is Some ==> r == Ok::<User, Error>(user.unwrap()),
    {
        let t = match extracted {
            Ok(t) => t,
            Err(e) => {
                return Err(Error::E(e.to_string(), util::CODE_FAIL));
            },
        };
        match user {
            Some(u) => Ok(copy_user(u)),
            None => {
                let mut m = String::from_str("账号:");
                m.append(t.account.as_str());
                m.append(" 不存在!");
                Err(Error::E(m, util::CODE_FAIL))
            },
        }
    }
}

} // verus!
