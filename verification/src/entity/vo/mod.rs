//! Response shapes.
pub mod abstracts;
pub mod db_dump_log;
pub mod files;
pub mod general_journal;
pub mod jwt;
pub mod journal;
pub mod log;
pub mod log_type;
pub mod memo;
pub mod monetary;
pub mod news;
pub mod notebook;
pub mod notes;
pub mod payment_means;
pub mod pictures;
pub mod plan;
pub mod plan_archive;
pub mod sign_in;
pub mod total_log;
pub mod total_pre_6_month;
pub mod total_table;
pub mod user;
pub mod user_context;

use vstd::prelude::*;
use crate::error::Error;
use crate::util;

verus! {

/// The text sent with every successful response.
pub open spec fn success_message() -> Seq<char> {
    "操作成功"@
}

/// The text sent in place of the message of an internal error.
pub open spec fn hidden_failure_message() -> Seq<char> {
    "处理失败，请稍后再试"@
}

/// The envelope of every response: a code, a message and the payload.
#[derive(Clone, Debug)]
pub struct RespVO<T> {
    pub code: Option<i32>,
    pub msg: Option<String>,
    pub data: Option<T>,
}

/// The message a client sees for an error: internal errors are masked, the
/// others show their own message.
pub open spec fn shown_message(e: Error) -> Seq<char> {
    if e.code() == util::UNKNOWN_ERROR {
        hidden_failure_message()
    } else {
        e.message()
    }
}

impl<T: Clone> RespVO<T> {
    /// Wraps the outcome of a service call. A success carries a copy of the
    /// value; an error carries its code, and its message unless it is an
    /// internal error, whose details are withheld.
    pub fn from_result(arg: &Result<T, Error>) -> (r: Self)
        ensures
            arg is Ok ==> {
                &&& r.code == Some(util::CODE_SUCCESS)
                &&& r.msg matches Some(m) && m@ == success_message()
                &&& r.data matches Some(d) && cloned::<T>(arg->Ok_0, d)
            },
            arg is Err ==> {
                &&& r.code == Some(arg->Err_0.code())
                &&& r.msg matches Some(m) && m@ == shown_message(arg->Err_0)
                &&& r.data is None
            },
    {
        match arg {
            Ok(value) => {
                RespVO { code: Some(util::CODE_SUCCESS), msg: Some(String::from_str("操作成功")), data: Some(value.clone()) }
            },
            Err(Error::E(message, code)) => {
                if *code == util::UNKNOWN_ERROR {
                    RespVO { code: Some(*code), msg: Some(String::from_str("处理失败，请稍后再试")), data: None }
                } else {
                    RespVO { code: Some(*code), msg: Some(message.clone()), data: None }
                }
            },
        }
    }

    /// Wraps a successful value.
    pub fn from(arg: &T) -> (r: Self)
        ensures
            r.code == Some(util::CODE_SUCCESS),
            r.msg matches Some(m) && m@ == success_message(),
            r.data matches Some(d) && cloned::<T>(*arg, d),
    {
        RespVO { code: Some(util::CODE_SUCCESS), msg: Some(String::from_str("操作成功")), data: Some(arg.clone()) }
    }

    /// Wraps an error under the given code, with the error's text.
    pub fn from_error(code: i32, arg: &Error) -> (r: Self)
        ensures
            r.code == Some(code),
            r.msg matches Some(m) && m@ == arg.message(),
            r.data is None,
    {
        RespVO { code: Some(code), msg: Some(arg.to_string()), data: None }
    }

    /// Wraps a failure under the given code, with the given text.
    pub fn from_error_info(code: i32, info: &str) -> (r: Self)
        ensures
            r.code == Some(code),
            r.msg matches Some(m) && m@ == info@,
            r.data is None,
    {
        RespVO { code: Some(code), msg: Some(info.to_string()), data: None }
    }
}

} // verus!
