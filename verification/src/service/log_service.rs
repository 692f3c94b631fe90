use vstd::prelude::*;
use crate::entity::vo::jwt::JWTToken;
use crate::error::Error;
use crate::util;

verus! {

/// The service of operation logs.
pub struct LogService {}

impl LogService {
    /// The accounts whose logs a page shows: those the query names, or,
    /// where it names none, the caller's own (`extracted` is what reading
    /// the caller's token gave, whose refusal is reported with one message).
    pub fn page_scope(organize: &Option<Vec<String>>, extracted: &Result<JWTToken, Error>) -> (r: Result<
        Vec<String>,
        Error,
    >)
        ensures
            organize is Some && organize.unwrap().len() > 0 ==> (r matches Ok(w) && w@
                == organize.unwrap()@),
            !(organize is Some && organize.unwrap().len() > 0) ==> match extracted {
                Ok(t) => r matches Ok(v) && v@ == seq![t.account],
                Err(_) => r matches Err(e) && e.message() == "获取用户信息失败"@ && e.code() == util::CODE_FAIL,
            },
    {
        match organize {
            Some(v) => {
                if v.len() > 0 {
                    return Ok(v.clone());
                }
            },
            None => {},
        }
        match extracted {
            Ok(t) => {
                let mut v: Vec<String> = Vec::new();
                v.push(t.account.clone());
                Ok(v)
            },
            Err(_) => Err(Error::from_message("获取用户信息失败")),
        }
    }

    /// Whether a page query found rows: none is an error.
    pub fn no_rows(total_row: u64) -> (r: Result<(), Error>)
        ensures
            total_row == 0 ==> (r matches Err(e) && e.message() == "未查询到符合条件的数据"@ && e.code()
                == util::NOT_EXIST_CODE),
            total_row > 0 ==> r is Ok,
    {
        if total_row == 0 {
            return Err(Error::with_code("未查询到符合条件的数据", util::NOT_EXIST_CODE));
        }
        Ok(())
    }
}

} // verus!
