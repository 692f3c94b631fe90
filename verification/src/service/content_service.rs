use vstd::prelude::*;
use crate::entity::domain::business_database_tables::{Memo, News, NoteBook, Notes};
use crate::entity::dto::memo::MemoDTO;
use crate::entity::vo::jwt::JWTToken;
use crate::service::financial_service::unknown_user;
use crate::entity::vo::memo::MemoVO;
use crate::entity::vo::news::NewsVO;
use crate::entity::vo::notes::NotesVO;
use crate::entity::dto::news::NewsDTO;
use crate::entity::dto::notebook::NoteBookDTO;
use crate::entity::dto::notes::NotesDTO;
use crate::error::Error;
use crate::util;
use crate::util::{blank, is_blank};
use crate::util::date_time::{month_days, parse_date, parsed_date, two_digits, Day, DateUtils};
use crate::util::money::{pow10, Amount};
use crate::service::oss_service::{signed_digits, OssService};
use rust_decimal::{Decimal, RoundingStrategy};

verus! {

/// The content service: news posts, memos, notebooks and notes.
pub struct ContentService {}

impl ContentService {
    /// The news post that a request publishes for the author `account` of
    /// organization `organize` at time `now`; topic and content must be given.
    pub fn add_news(arg: &NewsDTO, organize: u64, account: String, now: String) -> (r: Result<News, Error>)
        ensures
            blank(arg.topic) || blank(arg.content) ==> (r matches Err(e) && e.message() == "动态标题和内容不能为空!"@
                && e.code() == util::NOT_PARAMETER_CODE),
            !blank(arg.topic) && !blank(arg.content) ==> (r matches Ok(n) && n == (News {
                id: None,
                topic: arg.topic,
                label: arg.label,
                abstracts: None,
                content: arg.content,
                organize: Some(organize),
                source: Some(account),
                create_time: Some(now),
                update_time: None,
            })),
    {
        if is_blank(&arg.topic) || is_blank(&arg.content) {
            return Err(Error::with_code("动态标题和内容不能为空!", util::NOT_PARAMETER_CODE));
        }
        Ok(News {
            id: None,
            topic: arg.topic.clone(),
            label: arg.label.clone(),
            abstracts: None,
            content: arg.content.clone(),
            organize: Some(organize),
            source: Some(account),
            create_time: Some(now),
            update_time: None,
        })
    }
}

/// The error for an item that does not exist: "id=<id> 的<kind>不存在!".
pub open spec fn missing_item_message(id: u64, kind: Seq<char>) -> Seq<char> {
    "id="@ + crate::claims::digits(id as nat) + " 的"@ + kind + "不存在!"@
}

/// The error for an item `kind` with id `id` that does not exist.
pub fn missing_item(id: u64, kind: &str) -> (e: Error)
    ensures
        e.message() == missing_item_message(id, kind@),
        e.code() == util::NOT_EXIST_CODE,
{
    let mut m = String::from_str("id=");
    m.append(crate::claims::string_of(&crate::claims::digits_of(id)).as_str());
    m.append(" 的");
    m.append(kind);
    m.append("不存在!");
    Error::E(m, util::NOT_EXIST_CODE)
}

impl ContentService {
    /// The changes that a request makes to the news post `exist` of the
    /// caller's organization: topic, label and content are replaced, the
    /// author becomes `account`; id, topic and content must be given.
    pub fn edit_news(arg: &NewsDTO, exist: &News, account: String) -> (r: Result<News, Error>)
        ensures
            arg.id is None || blank(arg.topic) || blank(arg.content) ==> (r matches Err(e) && e.message()
                == "动态标题和内容不能为空!"@ && e.code() == util::NOT_PARAMETER_CODE),
            !(arg.id is None || blank(arg.topic) || blank(arg.content)) ==> (r matches Ok(n) && n == (News {
                id: arg.id,
                topic: arg.topic,
                label: arg.label,
                abstracts: None,
                content: arg.content,
                organize: exist.organize,
                source: Some(account),
                create_time: None,
                update_time: None,
            })),
    {
        if arg.id.is_none() || is_blank(&arg.topic) || is_blank(&arg.content) {
            return Err(Error::with_code("动态标题和内容不能为空!", util::NOT_PARAMETER_CODE));
        }
        Ok(News {
            id: arg.id,
            topic: arg.topic.clone(),
            label: arg.label.clone(),
            abstracts: None,
            content: arg.content.clone(),
            organize: exist.organize,
            source: Some(account),
            create_time: None,
            update_time: None,
        })
    }

    /// The memo that a request saves for `account` of `organize` at `now`;
    /// title and content must be given.
    pub fn add_memo(arg: &MemoDTO, organize: u64, account: String, now: String) -> (r: Result<Memo, Error>)
        ensures
            blank(arg.title) || blank(arg.content) ==> (r matches Err(e) && e.message() == "便笺标题和内容不能为空!"@
                && e.code() == util::NOT_PARAMETER_CODE),
            !blank(arg.title) && !blank(arg.content) ==> (r matches Ok(m) && m == (Memo {
                id: None,
                organize: Some(organize),
                source: Some(account),
                title: arg.title,
                content: arg.content,
                create_time: Some(now),
                update_time: None,
            })),
    {
        if is_blank(&arg.title) || is_blank(&arg.content) {
            return Err(Error::with_code("便笺标题和内容不能为空!", util::NOT_PARAMETER_CODE));
        }
        Ok(Memo {
            id: None,
            organize: Some(organize),
            source: Some(account),
            title: arg.title.clone(),
            content: arg.content.clone(),
            create_time: Some(now),
            update_time: None,
        })
    }

    /// The changes that a request makes to the memo `exist`: title and
    /// content are replaced, the author becomes `account`; id, title and
    /// content must be given.
    pub fn edit_memo(arg: &MemoDTO, exist: &Memo, account: String) -> (r: Result<Memo, Error>)
        ensures
            arg.id is None || blank(arg.title) || blank(arg.content) ==> (r matches Err(e) && e.message()
                == "便笺标题和内容不能为空!"@ && e.code() == util::NOT_PARAMETER_CODE),
            !(arg.id is None || blank(arg.title) || blank(arg.content)) ==> (r matches Ok(m) && m == (Memo {
                id: arg.id,
                organize: exist.organize,
                source: Some(account),
                title: arg.title,
                content: arg.content,
                create_time: None,
                update_time: None,
            })),
    {
        if arg.id.is_none() || is_blank(&arg.title) || is_blank(&arg.content) {
            return Err(Error::with_code("便笺标题和内容不能为空!", util::NOT_PARAMETER_CODE));
        }
        Ok(Memo {
            id: arg.id,
            organize: exist.organize,
            source: Some(account),
            title: arg.title.clone(),
            content: arg.content.clone(),
            create_time: None,
            update_time: None,
        })
    }

    /// The notebook that a request creates for `account` of `organize`; the
    /// name must be given and must not be taken already in the organization
    /// (`name_taken`). A new notebook has status 2.
    pub fn add_notebook(arg: &NoteBookDTO, name_taken: bool, organize: u64, account: String) -> (r: Result<NoteBook, Error>)
        ensures
            blank(arg.name) ==> (r matches Err(e) && e.message() == "笔记簿名称不能为空!"@ && e.code()
                == util::NOT_PARAMETER_CODE),
            !blank(arg.name) && name_taken ==> (r matches Err(e) && e.message() == "该笔记簿名【"@ + arg.name->0@
                + "】已存在!"@ && e.code() == util::CODE_FAIL),
            !blank(arg.name) && !name_taken ==> (r matches Ok(b) && b == (NoteBook {
                id: None,
                name: arg.name,
                organize: Some(organize),
                source: Some(account),
                status: Some(2),
                descript: arg.descript,
            })),
    {
        if is_blank(&arg.name) {
            return Err(Error::with_code("笔记簿名称不能为空!", util::NOT_PARAMETER_CODE));
        }
        if name_taken {
            return Err(notebook_name_taken(&arg.name));
        }
        Ok(NoteBook {
            id: None,
            name: arg.name.clone(),
            organize: Some(organize),
            source: Some(account),
            status: Some(2),
            descript: arg.descript.clone(),
        })
    }

    /// The changes that a request makes to a notebook of `organize`; id and
    /// name must be given and the name must not be taken by another notebook
    /// of the organization (`name_taken`).
    pub fn edit_notebook(arg: &NoteBookDTO, name_taken: bool, organize: u64, account: String) -> (r: Result<NoteBook, Error>)
        ensures
            arg.id is None || blank(arg.name) ==> (r matches Err(e) && e.message() == "笔记簿名称不能为空!"@
                && e.code() == util::NOT_PARAMETER_CODE),
            !(arg.id is None || blank(arg.name)) && name_taken ==> (r matches Err(e) && e.message() == "该笔记簿名【"@
                + arg.name->0@ + "】已存在!"@ && e.code() == util::CODE_FAIL),
            !(arg.id is None || blank(arg.name)) && !name_taken ==> (r matches Ok(b) && b == (NoteBook {
                id: arg.id,
                name: arg.name,
                organize: Some(organize),
                source: Some(account),
                status: arg.status,
                descript: arg.descript,
            })),
    {
        if arg.id.is_none() || is_blank(&arg.name) {
            return Err(Error::with_code("笔记簿名称不能为空!", util::NOT_PARAMETER_CODE));
        }
        if name_taken {
            return Err(notebook_name_taken(&arg.name));
        }
        Ok(NoteBook {
            id: arg.id,
            name: arg.name.clone(),
            organize: Some(organize),
            source: Some(account),
            status: arg.status,
            descript: arg.descript.clone(),
        })
    }

    /// The note that a request creates for `account` at `now`; notebook,
    /// topic and content must be given.
    pub fn add_notes(arg: &NotesDTO, account: String, now: String) -> (r: Result<Notes, Error>)
        ensures
            arg.notebook_id is None || blank(arg.topic) || blank(arg.content) ==> (r matches Err(e) && e.message()
                == "笔记标题和内容不能为空!"@ && e.code() == util::NOT_PARAMETER_CODE),
            !(arg.notebook_id is None || blank(arg.topic) || blank(arg.content)) ==> (r matches Ok(n) && n == (Notes {
                id: None,
                notebook_id: arg.notebook_id,
                label: arg.label,
                topic: arg.topic,
                abstracts: None,
                content: arg.content,
                source: Some(account),
                create_time: Some(now),
                update_time: None,
            })),
    {
        if arg.notebook_id.is_none() || is_blank(&arg.topic) || is_blank(&arg.content) {
            return Err(Error::with_code("笔记标题和内容不能为空!", util::NOT_PARAMETER_CODE));
        }
        Ok(Notes {
            id: None,
            notebook_id: arg.notebook_id,
            label: arg.label.clone(),
            topic: arg.topic.clone(),
            abstracts: None,
            content: arg.content.clone(),
            source: Some(account),
            create_time: Some(now),
            update_time: None,
        })
    }

    /// The changes that a request makes to a note; id, notebook, topic and
    /// content must be given.
    pub fn edit_notes(arg: &NotesDTO, account: String) -> (r: Result<Notes, Error>)
        ensures
            arg.id is None || arg.notebook_id is None || blank(arg.topic) || blank(arg.content) ==> (r matches Err(e)
                && e.message() == "便笺标题和内容不能为空!"@ && e.code() == util::NOT_PARAMETER_CODE),
            !(arg.id is None || arg.notebook_id is None || blank(arg.topic) || blank(arg.content)) ==> (r matches Ok(n)
                && n == (Notes {
                id: arg.id,
                notebook_id: arg.notebook_id,
                label: arg.label,
                topic: arg.topic,
                abstracts: None,
                content: arg.content,
                source: Some(account),
                create_time: None,
                update_time: None,
            })),
    {
        if arg.id.is_none() || arg.notebook_id.is_none() || is_blank(&arg.topic) || is_blank(&arg.content) {
            return Err(Error::with_code("便笺标题和内容不能为空!", util::NOT_PARAMETER_CODE));
        }
        Ok(Notes {
            id: arg.id,
            notebook_id: arg.notebook_id,
            label: arg.label.clone(),
            topic: arg.topic.clone(),
            abstracts: None,
            content: arg.content.clone(),
            source: Some(account),
            create_time: None,
            update_time: None,
        })
    }
}

/// The error for a notebook name that is taken.
fn notebook_name_taken(name: &Option<String>) -> (e: Error)
    requires
        name is Some,
    ensures
        e.message() == "该笔记簿名【"@ + name->0@ + "】已存在!"@,
        e.code() == util::CODE_FAIL,
{
    let mut m = String::from_str("该笔记簿名【");
    match name {
        Some(n) => m.append(n.as_str()),
        None => {},
    }
    m.append("】已存在!");
    Error::E(m, util::CODE_FAIL)
}

/// The days over which the news of a month are counted, and the window of
/// time that holds them.
#[derive(Clone, Debug)]
pub struct NewsWindow {
    /// The first moment of the month.
    pub start: String,
    /// The last moment of the last day counted.
    pub end: String,
    /// The number of days counted.
    pub days: u32,
}

/// The days counted of the month of `month` on `today`: the days gone by in
/// the month of `today`, all the days of any other month.
pub open spec fn counted_days(month: (i32, u32, u32), today: Day) -> int {
    if today.year == month.0 && today.month == month.1 {
        today.day as int
    } else {
        month_days(month.0 as int, month.1 as int)
    }
}

/// A moment of a month written `year-MM-DD hh:mm:ss`, the year plain.
pub open spec fn month_moment(year: i32, month: u32, day: u32, time: Seq<char>) -> Seq<char> {
    signed_digits(year as i64) + seq!['-'] + two_digits(month as nat) + seq!['-'] + two_digits(day as nat)
        + seq![' '] + time
}

/// The mean number of news per day, as `rust_decimal` divides the count by
/// the days and rounds away from zero to two places, given by
/// mantissa and scale.
pub uninterp spec fn decimal_mean(count: u64, days: u32) -> (i128, u32);

/// The hundredths in the mean of `count` over `days`, rounded up: the
/// value of the mean to two places, rounded away from zero.
pub open spec fn mean_hundredths(count: u64, days: u32) -> int {
    (count * 100 + days - 1) / (days as int)
}

/// `Decimal::from(count) / Decimal::from(days)`, rounded to two places with
/// `RoundingStrategy::AwayFromZero` (`rust_decimal`). The result is named;
/// it is a decimal of at most two places. The division keeps at least nine
/// places for any `u64` count, so for a count of days within a year the
/// rounding up lands on the exact quotient's hundredths rounded up.
#[verifier::external_body]
fn mean_per_day(count: u64, days: u32) -> (r: Amount)
    requires
        days > 0,
    ensures
        (r.mantissa, r.scale) == decimal_mean(count, days),
        r.wf(),
        r.scale <= 2,
        days <= 366 ==> r.mantissa * pow10((2 - r.scale) as nat) == mean_hundredths(count, days),
{
    let mean = (Decimal::from(count) / Decimal::from(days)).round_dp_with_strategy(
        2,
        RoundingStrategy::AwayFromZero,
    );
    Amount { mantissa: mean.mantissa(), scale: mean.scale() }
}

/// Writes a number below one hundred zero-padded to two digits.
fn two_digit_text(n: u32) -> (r: String)
    requires
        n < 100,
    ensures
        r@ == two_digits(n as nat),
{
    let mut r = String::new();
    if n < 10 {
        r.append("0");
        proof {
            reveal_strlit("0");
        }
    }
    r.append(crate::claims::string_of(&crate::claims::digits_of(n as u64)).as_str());
    proof {
        if n < 10 {
            assert(r@ =~= seq!['0'] + crate::claims::digits(n as nat));
        }
    }
    r
}

/// Writes a moment of a month: `year-MM-DD ` and the time.
fn month_moment_text(year: i32, month: u32, day: u32, time: &str) -> (r: String)
    requires
        month < 100,
        day < 100,
    ensures
        r@ == month_moment(year, month, day, time@),
{
    let mut r = OssService::signed_text(year as i64);
    r.append("-");
    r.append(two_digit_text(month).as_str());
    r.append("-");
    r.append(two_digit_text(day).as_str());
    r.append(" ");
    r.append(time);
    proof {
        reveal_strlit("-");
        reveal_strlit(" ");
        assert(r@ =~= month_moment(year, month, day, time@));
    }
    r
}

impl ContentService {
    /// The window of the news counted for the month of `month` (a date
    /// written `%Y-%m-%d`) on `today`: from the first moment of the month to
    /// the last of the last day counted, that day being today in the month
    /// of `today` and the month's last day otherwise.
    pub fn compute_pre6_news(month: &str, today: Day) -> (r: Result<NewsWindow, Error>)
        requires
            today.wf(),
        ensures
            parsed_date(month@) is None ==> (r matches Err(e) && e.message() == "统计月份不能为空!"@
                && e.code() == util::NOT_PARAMETER_CODE),
            parsed_date(month@) matches Some(d) ==> (r matches Ok(w) && w.days == counted_days(d, today)
                && w.start@ == month_moment(d.0, d.1, 1, "00:00:00"@) && w.end@ == month_moment(
                d.0,
                d.1,
                w.days,
                "23:59:59"@,
            )),
    {
        let (year, mon, _day) = match parse_date(month) {
            Some(d) => d,
            None => {
                return Err(Error::with_code("统计月份不能为空!", util::NOT_PARAMETER_CODE));
            },
        };
        let days: u32 = if today.year == year && today.month == mon {
            today.day
        } else {
            DateUtils::get_current_month_days(year, mon)
        };
        let start = month_moment_text(year, mon, 1, "00:00:00");
        let end = month_moment_text(year, mon, days, "23:59:59");
        Ok(NewsWindow { start, end, days })
    }

    /// The mean number of news per day over `days` days with `count` news,
    /// rounded away from zero to two places.
    pub fn news_average(count: u64, days: u32) -> (r: Amount)
        requires
            days > 0,
        ensures
            (r.mantissa, r.scale) == decimal_mean(count, days),
            r.wf(),
            r.scale <= 2,
            days <= 366 ==> r.mantissa * pow10((2 - r.scale) as nat) == mean_hundredths(count, days),
    {
        mean_per_day(count, days)
    }
}

impl ContentService {
    /// The news post `id` as shown, from what the lookup found.
    pub fn get_news_detail(id: u64, found: Option<News>) -> (r: Result<NewsVO, Error>)
        ensures
            found is None ==> (r matches Err(e) && e.message() == missing_item_message(id, "动态"@)
                && e.code() == util::NOT_EXIST_CODE),
            found matches Some(n) ==> r == Ok::<NewsVO, Error>(
                NewsVO {
                    id: n.id,
                    topic: n.topic,
                    label: n.label,
                    abstracts: n.abstracts,
                    content: n.content,
                    organize: n.organize,
                    source: n.source,
                    create_time: n.create_time,
                    update_time: n.update_time,
                },
            ),
    {
        match found {
            Some(n) => Ok(NewsVO::from(n)),
            None => Err(missing_item(id, "动态")),
        }
    }

    /// The memo `id` as shown, from what the lookup found.
    pub fn get_memo_detail(id: u64, found: Option<Memo>) -> (r: Result<MemoVO, Error>)
        ensures
            found is None ==> (r matches Err(e) && e.message() == missing_item_message(id, "便笺"@)
                && e.code() == util::NOT_EXIST_CODE),
            found matches Some(m) ==> r == Ok::<MemoVO, Error>(
                MemoVO {
                    id: m.id,
                    organize: m.organize,
                    source: m.source,
                    title: m.title,
                    content: m.content,
                    create_time: m.create_time,
                    update_time: m.update_time,
                },
            ),
    {
        match found {
            Some(m) => Ok(MemoVO::from(m)),
            None => Err(missing_item(id, "便笺")),
        }
    }

    /// The note `id` as shown, with its stored body, from what the lookup
    /// found; a missing note is reported as the service always has, as a
    /// missing news post.
    pub fn get_notes_detail(id: u64, found: Option<Notes>) -> (r: Result<NotesVO, Error>)
        ensures
            found is None ==> (r matches Err(e) && e.message() == missing_item_message(id, "动态"@)
                && e.code() == util::NOT_EXIST_CODE),
            found matches Some(n) ==> (r matches Ok(v) && v == (NotesVO {
                id: n.id,
                notebook_id: n.notebook_id,
                label: n.label,
                topic: n.topic,
                abstracts: n.abstracts,
                path: None,
                content: v.content,
                source: n.source,
                create_time: n.create_time,
                update_time: n.update_time,
            }) && (v.content matches Some(c) && c@ == match n.content {
                Some(t) => t@,
                None => Seq::empty(),
            })),
    {
        match found {
            Some(n) => {
                let body = match &n.content {
                    Some(t) => t.clone(),
                    None => String::new(),
                };
                Ok(NotesVO::from(n, body))
            },
            None => Err(missing_item(id, "动态")),
        }
    }
}

impl ContentService {
    /// What deleting the news post `id` on behalf of `user` deletes: the item
    /// `id` of the caller's organization, given as id and organization.
    pub fn delete_news(id: u64, user: &Option<JWTToken>) -> (r: Result<(u64, u64), Error>)
        ensures
            user is None ==> (r matches Err(e) && e.message() == "获取用户信息失败，请登录"@ && e.code()
                == util::NOT_AUTHORIZE_CODE),
            user is Some ==> r == Ok::<(u64, u64), Error>((id, user.unwrap().organize)),
    {
        match user {
            Some(u) => Ok((id, u.organize)),
            None => Err(unknown_user()),
        }
    }

    /// What deleting the memo `id` on behalf of `user` deletes: the item
    /// `id` of the caller's organization, given as id and organization.
    pub fn delete_memo(id: u64, user: &Option<JWTToken>) -> (r: Result<(u64, u64), Error>)
        ensures
            user is None ==> (r matches Err(e) && e.message() == "获取用户信息失败，请登录"@ && e.code()
                == util::NOT_AUTHORIZE_CODE),
            user is Some ==> r == Ok::<(u64, u64), Error>((id, user.unwrap().organize)),
    {
        match user {
            Some(u) => Ok((id, u.organize)),
            None => Err(unknown_user()),
        }
    }

    /// What deleting the notebook, with its notes `id` on behalf of `user` deletes: the item
    /// `id` of the caller's organization, given as id and organization.
    pub fn delete_notebook(id: u64, user: &Option<JWTToken>) -> (r: Result<(u64, u64), Error>)
        ensures
            user is None ==> (r matches Err(e) && e.message() == "获取用户信息失败，请登录"@ && e.code()
                == util::NOT_AUTHORIZE_CODE),
            user is Some ==> r == Ok::<(u64, u64), Error>((id, user.unwrap().organize)),
    {
        match user {
            Some(u) => Ok((id, u.organize)),
            None => Err(unknown_user()),
        }
    }

    /// What deleting the note `id` on behalf of `user` deletes: the item
    /// `id` of the caller's organization, given as id and organization.
    pub fn delete_notes(id: u64, user: &Option<JWTToken>) -> (r: Result<(u64, u64), Error>)
        ensures
            user is None ==> (r matches Err(e) && e.message() == "获取用户信息失败，请登录"@ && e.code()
                == util::NOT_AUTHORIZE_CODE),
            user is Some ==> r == Ok::<(u64, u64), Error>((id, user.unwrap().organize)),
    {
        match user {
            Some(u) => Ok((id, u.organize)),
            None => Err(unknown_user()),
        }
    }

    /// The query that lists notebooks for `user`: the request's, narrowed
    /// to the caller's organization.
    pub fn list_notebook(param: &NoteBookDTO, user: &Option<JWTToken>) -> (r: Result<NoteBookDTO, Error>)
        ensures
            user is None ==> (r matches Err(e) && e.message() == "获取用户信息失败，请登录"@ && e.code()
                == util::NOT_AUTHORIZE_CODE),
            user is Some ==> r == Ok::<NoteBookDTO, Error>(
                NoteBookDTO { organize: Some(user.unwrap().organize), ..*param },
            ),
    {
        match user {
            Some(u) => Ok(
                NoteBookDTO {
                    id: param.id,
                    name: param.name.clone(),
                    organize: Some(u.organize),
                    source: param.source.clone(),
                    status: param.status,
                    descript: param.descript.clone(),
                },
            ),
            None => Err(unknown_user()),
        }
    }
}

} // verus!
