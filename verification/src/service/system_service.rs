use vstd::prelude::*;
use crate::entity::dto::sign_in::SignInDTO;
use crate::entity::dto::user::UserDTO;
use crate::entity::domain::primary_database_tables::User;
use crate::entity::table::primary_database_tables::{Plan, PlanArchive};
use crate::entity::dto::plan::PlanDTO;
use crate::util::date_time::{
    datetime_text, format_datetime, moment_of, next_run, one_cycle_later, parse_datetime,
    parsed_datetime, DayTime,
};
use crate::entity::dto::plan_archive::PlanArchiveDTO;
use crate::entity::vo::log::LogVO;
use crate::entity::vo::total_log::TotalLogVO;
use crate::entity::vo::total_pre_6_month::TotalPre6MonthVO;
use crate::entity::vo::total_table::TotalTable;
use crate::service::content_service::{missing_item, missing_item_message};
use crate::util::date_time::Day;
use crate::entity::vo::plan_archive::PlanArchiveVO;
use crate::entity::vo::sign_in::SignInVO;
use crate::entity::vo::user::UserVO;
use crate::entity::vo::user_context::UserContext;
use crate::util::{blank, is_blank};
use std::collections::HashMap;
use crate::error::Error;
use crate::util;
use crate::util::transaction::{after_write, is_write_action, TxAction};
use crate::util::date_time::{is_date, month_days, parse_date, parsed_date, weekday_from_sunday, weekday_of, DateUtils};

verus! {

/// The system service: accounts, logs, plans and statistics.
pub struct SystemService {}

/// A plan shown in a calendar cell.
#[derive(Clone, Debug)]
pub struct GridPlan {
    pub archive_time: Option<String>,
    pub title: Option<String>,
    pub content: Option<String>,
}

/// A cell of the month calendar: a day of the month (`flag` 1, `number` the
/// day) with its plans, if it has any, or a blank cell (`flag` 0).
#[derive(Clone, Debug)]
pub struct GridDay {
    pub flag: u32,
    pub number: u64,
    pub value: Option<Vec<GridPlan>>,
}

/// The cell number (from 1) of the first day of the month, for the month
/// read as the date `year`-`month`-`day`: the calendar's rows start on Sunday.
pub open spec fn grid_first_cell(year: int, month: int, day: int) -> int {
    weekday_from_sunday(year, month, day) + 1
}

/// The number of cells of the calendar of a month: whole weeks that cover
/// every day.
pub open spec fn grid_len(year: int, month: int, day: int) -> int {
    let used = month_days(year, month) + grid_first_cell(year, month, day) - 1;
    if used % 7 == 0 {
        used
    } else {
        (used / 7 + 1) * 7
    }
}

/// How a plan appears in a calendar cell.
pub open spec fn grid_plan_of(row: PlanArchiveVO) -> GridPlan {
    GridPlan { archive_time: row.archive_time, title: row.title, content: row.content }
}

/// The plans, in the order of `rows`, that fall on `day` (a row's `id` holds
/// its day of the month).
pub open spec fn day_plans(rows: Seq<PlanArchiveVO>, day: u64) -> Seq<GridPlan>
    decreases rows.len(),
{
    if rows.len() == 0 {
        Seq::empty()
    } else if rows.last().id == Some(day) {
        day_plans(rows.drop_last(), day).push(grid_plan_of(rows.last()))
    } else {
        day_plans(rows.drop_last(), day)
    }
}

/// Whether the calendar's cell `n` (from 1) shows a day of the month.
pub open spec fn cell_in_month(year: int, month: int, day: int, n: int) -> bool {
    grid_first_cell(year, month, day) <= n <= month_days(year, month) + grid_first_cell(year, month, day) - 1
}

/// The day of the month that the calendar's cell `n` shows.
pub open spec fn cell_day(year: int, month: int, day: int, n: int) -> int {
    n - grid_first_cell(year, month, day) + 1
}

/// Whether `cell` is the calendar's cell `n` for `rows`.
pub open spec fn is_grid_cell(year: int, month: int, day: int, n: int, rows: Seq<PlanArchiveVO>, cell: GridDay) -> bool {
    if cell_in_month(year, month, day, n) {
        let plans = day_plans(rows, cell_day(year, month, day, n) as u64);
        &&& cell.flag == 1
        &&& cell.number == cell_day(year, month, day, n)
        &&& (cell.value is Some <==> plans.len() > 0)
        &&& (cell.value matches Some(v) ==> v@ == plans)
    } else {
        &&& cell.flag == 0
        &&& cell.number == 0
        &&& cell.value is None
    }
}

/// The text of the first day of the month `query_month` (written `%Y-%m`).
pub open spec fn first_of_month_text(query_month: Seq<char>) -> Seq<char> {
    query_month + "-01"@
}

proof fn lemma_day_plans_step(rows: Seq<PlanArchiveVO>, k: int, day: u64)
    requires
        0 <= k < rows.len(),
    ensures
        day_plans(rows.take(k + 1), day) == if rows[k].id == Some(day) {
            day_plans(rows.take(k), day).push(grid_plan_of(rows[k]))
        } else {
            day_plans(rows.take(k), day)
        },
{
    assert(rows.take(k + 1).drop_last() =~= rows.take(k));
    assert(rows.take(k + 1).last() == rows[k]);
}

impl SystemService {
    /// The calendar of the month `query_month` (written `%Y-%m`) for the
    /// plans `rows`, each row's `id` holding its day of the month: whole
    /// weeks from Sunday, blank cells before the first and after the last
    /// day, and each day with the plans that fall on it, in their order.
    pub fn plan_grid(&self, query_month: &str, rows: Vec<PlanArchiveVO>) -> (r: Result<Vec<GridDay>, Error>)
        requires
            forall|i: int| 0 <= i < rows.len() ==> (#[trigger] rows@[i]).id is Some,
        ensures
            parsed_date(first_of_month_text(query_month@)) is None ==> (r matches Err(e) && e.message()
                == "查询时间格式有误!"@ && e.code() == util::NOT_PARAMETER_CODE),
            parsed_date(first_of_month_text(query_month@)) matches Some((y, m, d)) ==> (is_date(
                y as int,
                m as int,
                d as int,
            ) && 1 <= m <= 12),
            parsed_date(first_of_month_text(query_month@)) matches Some((y, m, d)) ==> (r matches Ok(cells)
                && cells.len() == grid_len(y as int, m as int, d as int) && forall|j: int|
                0 <= j < cells.len() ==> is_grid_cell(y as int, m as int, d as int, j + 1, rows@, #[trigger] cells@[j])),
    {
        let mut month_text = String::from_str(query_month);
        month_text.append("-01");
        let (year, month, day) = match parse_date(month_text.as_str()) {
            Some(date) => date,
            None => {
                return Err(Error::with_code("查询时间格式有误!", util::NOT_PARAMETER_CODE));
            },
        };
        let ghost all = rows@;
        let days: u64 = DateUtils::get_current_month_days(year, month) as u64;
        let first_day: u64 = (weekday_of(year, month, day) + 1) as u64;
        let used = days + first_day - 1;
        let table_line = if used % 7 == 0 {
            used / 7
        } else {
            used / 7 + 1
        };
        let grid_count = table_line * 7;
        // Group the plans by their day of the month.
        let mut buckets: Vec<Vec<GridPlan>> = Vec::new();
        let mut b: u64 = 0;
        while b <= days
            invariant
                b <= days + 1,
                days <= 31,
                buckets.len() == b,
                forall|d: int| 0 <= d < b ==> (#[trigger] buckets@[d])@ == Seq::<GridPlan>::empty(),
            decreases days + 1 - b,
        {
            buckets.push(Vec::new());
            b = b + 1;
        }
        proof {
            assert forall|d: int| 1 <= d <= days implies (#[trigger] buckets@[d])@ == day_plans(all.take(0), d as u64) by {
                assert(all.take(0) =~= Seq::<PlanArchiveVO>::empty());
            }
        }
        for row in it: rows.into_iter()
            invariant
                it.seq() == all,
                forall|i: int| 0 <= i < all.len() ==> (#[trigger] all[i]).id is Some,
                days <= 31,
                buckets.len() == days + 1,
                forall|d: int| 1 <= d <= days ==> (#[trigger] buckets@[d])@ == day_plans(all.take(it.index() as int), d as u64),
        {
            let ghost k = it.index() as int;
            let id = match row.id {
                Some(id) => id,
                None => 0,
            };
            proof {
                assert(row == all[k]);
                assert forall|d: int| 1 <= d <= days implies #[trigger] day_plans(all.take(k + 1), d as u64) == if id == d {
                    day_plans(all.take(k), d as u64).push(grid_plan_of(row))
                } else {
                    day_plans(all.take(k), d as u64)
                } by {
                    lemma_day_plans_step(all, k, d as u64);
                }
            }
            if 1 <= id && id <= days {
                let plan = GridPlan { archive_time: row.archive_time, title: row.title, content: row.content };
                buckets[id as usize].push(plan);
            }
        }
        assert(all.take(all.len() as int) =~= all);
        let mut cells: Vec<GridDay> = Vec::new();
        let mut number: u64 = 1;
        while number <= grid_count
            invariant
                1 <= number <= grid_count + 1,
                days == month_days(year as int, month as int),
                first_day == weekday_from_sunday(year as int, month as int, day as int) + 1,
                1 <= first_day <= 7,
                28 <= days <= 31,
                grid_count == grid_len(year as int, month as int, day as int),
                grid_count <= 42,
                buckets.len() == days + 1,
                cells.len() == number - 1,
                forall|d: int| #![trigger buckets@[d]]
                    1 <= d <= days && d >= number - first_day + 1 ==> buckets@[d]@ == day_plans(all, d as u64),
                forall|j: int| 0 <= j < cells.len() ==> is_grid_cell(year as int, month as int, day as int, j + 1, all, #[trigger] cells@[j]),
            decreases grid_count + 1 - number,
        {
            if number >= first_day && number <= days + first_day - 1 {
                let today = number - (first_day - 1);
                let mut plans: Vec<GridPlan> = Vec::new();
                std::mem::swap(&mut plans, &mut buckets[today as usize]);
                let value = if plans.len() > 0 {
                    Some(plans)
                } else {
                    None
                };
                cells.push(GridDay { flag: 1, number: today, value: value });
            } else {
                cells.push(GridDay { flag: 0, number: 0, value: None });
            }
            number = number + 1;
        }
        Ok(cells)
    }
}

/// How a user is shown: the password withheld, the wallpaper address unset.
pub open spec fn shown_user(u: User) -> UserVO {
    UserVO {
        account: u.account,
        name: u.name,
        password: None,
        sex: u.sex,
        qq: u.qq,
        email: u.email,
        phone: u.phone,
        birthday: u.birthday,
        hometown: u.hometown,
        autograph: u.autograph,
        logo: u.logo,
        background: u.background,
        organize_id: u.organize_id,
        state: u.state,
        create_time: u.create_time,
        update_time: u.update_time,
        background_url: None,
    }
}

/// A copy of an account.
pub fn copy_user(u: &User) -> (r: User)
    ensures
        r == *u,
{
    User {
        account: u.account.clone(),
        name: u.name.clone(),
        password: u.password.clone(),
        sex: u.sex.clone(),
        qq: u.qq.clone(),
        email: u.email.clone(),
        phone: u.phone.clone(),
        birthday: u.birthday.clone(),
        hometown: u.hometown.clone(),
        autograph: u.autograph.clone(),
        logo: u.logo.clone(),
        background: u.background,
        organize_id: u.organize_id,
        state: u.state,
        create_time: u.create_time.clone(),
        update_time: u.update_time.clone(),
    }
}

/// The text of an optional text, empty where there is none.
pub open spec fn text_or_empty(o: Option<String>) -> Seq<char> {
    match o {
        Some(s) => s@,
        None => Seq::empty(),
    }
}

/// The text of an optional text, empty where there is none.
pub fn string_or_empty(o: &Option<String>) -> (r: String)
    ensures
        r@ == text_or_empty(*o),
{
    match o {
        Some(s) => s.clone(),
        None => String::new(),
    }
}

/// The error of an account that does not exist: "账号:<account> 不存在!".
pub open spec fn missing_account_message(account: Seq<char>) -> Seq<char> {
    "账号:"@ + account + " 不存在!"@
}

/// The error of an account that does not exist.
pub fn missing_account(account: &str) -> (e: Error)
    ensures
        e.message() == missing_account_message(account@),
        e.code() == util::NOT_EXIST_CODE,
{
    let mut m = String::from_str("账号:");
    m.append(account);
    m.append(" 不存在!");
    Error::E(m, util::NOT_EXIST_CODE)
}

/// What a sign-in grants: the response, the session, the key the session
/// is cached under, and how long it lasts.
#[derive(Clone, Debug)]
pub struct SessionGrant {
    pub sign_in: SignInVO,
    pub context: UserContext,
    pub key: String,
    pub leeway: u64,
}

/// How long a session lasts: a week from the desktop client, an hour
/// otherwise.
pub open spec fn leeway_of(platform: Seq<char>) -> u64 {
    if platform == "desktop"@ {
        util::DESKTOP_PLATFORM_TTL
    } else {
        util::BROWSER_PLATFORM_TTL
    }
}

/// Whether an address is the machine itself.
pub open spec fn local_address(ip: Seq<char>) -> bool {
    ip == "127.0.0.1"@ || ip == "localhost"@
}

/// The key a session is cached under.
pub open spec fn session_key_of(token: Seq<char>) -> Seq<char> {
    util::USER_CACHE_PREFIX@ + ":"@ + token
}

impl SystemService {
    /// How long a session lasts: a week from the desktop client, an hour
    /// otherwise.
    pub fn session_leeway(platform: &str) -> (r: u64)
        ensures
            r == leeway_of(platform@),
    {
        if String::from_str(platform) == String::from_str("desktop") {
            util::DESKTOP_PLATFORM_TTL
        } else {
            util::BROWSER_PLATFORM_TTL
        }
    }

    /// Whether an address is the machine itself, whose city need not be
    /// looked up.
    pub fn is_local_address(ip: &str) -> (r: bool)
        ensures
            r == local_address(ip@),
    {
        let text = String::from_str(ip);
        text == String::from_str("127.0.0.1") || text == String::from_str("localhost")
    }

    /// The city of a sign-in: the local network for the machine itself,
    /// otherwise the city that was looked up for the address.
    pub fn session_city(ip: &str, looked_up: Option<String>) -> (r: String)
        requires
            !local_address(ip@) ==> looked_up is Some,
        ensures
            local_address(ip@) ==> r@ == "局域网地址"@,
            !local_address(ip@) ==> r == looked_up.unwrap(),
    {
        if SystemService::is_local_address(ip) {
            String::from_str("局域网地址")
        } else {
            match looked_up {
                Some(c) => c,
                None => String::from_str("局域网地址"),
            }
        }
    }

    /// The key a session is cached under.
    pub fn session_key(token: &str) -> (r: String)
        ensures
            r@ == session_key_of(token@),
    {
        let mut r = String::from_str(util::USER_CACHE_PREFIX);
        r.append(":");
        r.append(token);
        r
    }

    /// What signing `user` in from `platform` at address `ip` in `city`
    /// grants. `background` is the address of the user's wallpaper (`None`
    /// where looking it up failed), `plan` today's plans and `log` the last
    /// operation (each `None` where the query failed), `token` the new token
    /// (`None` where making it failed) and `duplicate_cleared` whether older
    /// sessions were cleared. The response shows the user without password
    /// and with the wallpaper address; the session lasts as `platform`
    /// says.
    pub fn generate_token(
        &self,
        user: &User,
        platform: &str,
        ip: String,
        city: String,
        background: Option<Option<String>>,
        plan: Option<Vec<HashMap<String, String>>>,
        log: Option<Option<LogVO>>,
        token: Option<String>,
        duplicate_cleared: bool,
    ) -> (r: Result<SessionGrant, Error>)
        requires
            token is Some && duplicate_cleared ==> user.organize_id is Some,
        ensures
            token is None || !duplicate_cleared ==> (r matches Err(e) && e.message() == "登录异常"@
                && e.code() == util::CODE_FAIL),
            token is Some && duplicate_cleared ==> (r matches Ok(g) && g.leeway == leeway_of(
                platform@,
            ) && g.key@ == session_key_of(token.unwrap()@) && g.sign_in == (SignInVO {
                user: Some(
                    (UserVO {
                        background_url: match background {
                            Some(b) => b,
                            None => None,
                        },
                        ..shown_user(*user)
                    }),
                ),
                access_token: token.unwrap(),
                plan: plan,
                log: match log {
                    Some(l) => l,
                    None => None,
                },
            }) && g.context == (UserContext {
                account: g.context.account,
                name: g.context.name,
                organize: user.organize_id.unwrap(),
                ip: ip,
                city: city,
                leeway: leeway_of(platform@),
            }) && g.context.account@ == text_or_empty(user.account) && g.context.name@
                == text_or_empty(user.name)),
    {
        let leeway = SystemService::session_leeway(platform);
        let shown = UserVO::from(copy_user(user));
        let background_url = match background {
            Some(b) => b,
            None => None,
        };
        let user_vo = UserVO {
            account: shown.account,
            name: shown.name,
            password: shown.password,
            sex: shown.sex,
            qq: shown.qq,
            email: shown.email,
            phone: shown.phone,
            birthday: shown.birthday,
            hometown: shown.hometown,
            autograph: shown.autograph,
            logo: shown.logo,
            background: shown.background,
            organize_id: shown.organize_id,
            state: shown.state,
            create_time: shown.create_time,
            update_time: shown.update_time,
            background_url,
        };
        let last_log = match log {
            Some(l) => l,
            None => None,
        };
        let t = match token {
            Some(t) => t,
            None => {
                return Err(Error::from_message("登录异常"));
            },
        };
        if !duplicate_cleared {
            return Err(Error::from_message("登录异常"));
        }
        let organize = match user.organize_id {
            Some(o) => o,
            None => 0,
        };
        let context = UserContext {
            account: string_or_empty(&user.account),
            name: string_or_empty(&user.name),
            organize,
            ip,
            city,
            leeway,
        };
        let key = SystemService::session_key(t.as_str());
        Ok(
            SessionGrant {
                sign_in: SignInVO { user: Some(user_vo), access_token: t, plan, log: last_log },
                context,
                key,
                leeway,
            },
        )
    }

    /// Checks a sign-in of `arg` against the stored account `user`;
    /// `password_matches` is whether the password given matches the stored
    /// one. Account and password must be given, the account exist and be
    /// neither disabled (state 0) nor locked (state 2), and carry a password
    /// that the one given matches.
    pub fn login(&self, arg: &SignInDTO, user: &Option<User>, password_matches: bool) -> (r: Result<User, Error>)
        ensures
            blank(arg.account) || blank(arg.password) ==> (r matches Err(e) && e.message()
                == "账号和密码不能为空!"@ && e.code() == util::NOT_PARAMETER_CODE),
            !blank(arg.account) && !blank(arg.password) && user is None ==> (r matches Err(e)
                && e.message() == missing_account_message(arg.account.unwrap()@) && e.code()
                == util::NOT_EXIST_CODE),
            !blank(arg.account) && !blank(arg.password) && user is Some ==> (if disabled_state(
                user.unwrap().state,
            ) {
                r matches Err(e) && e.message() == "账户被禁用!"@ && e.code() == util::CODE_FAIL
            } else if user.unwrap().password is None {
                r matches Err(e) && e.message() == "错误的用户数据，密码为空!"@ && e.code()
                    == util::NOT_PARAMETER_CODE
            } else if !password_matches {
                r matches Err(e) && e.message() == "账户或密码不正确!"@ && e.code() == util::CODE_FAIL
            } else {
                r == Ok::<User, Error>(user.unwrap())
            }),
    {
        if is_blank(&arg.account) || is_blank(&arg.password) {
            return Err(Error::with_code("账号和密码不能为空!", util::NOT_PARAMETER_CODE));
        }
        let u = match user {
            Some(u) => u,
            None => {
                let account = string_or_empty(&arg.account);
                return Err(missing_account(account.as_str()));
            },
        };
        if u.state == Some(0u32) || u.state == Some(2u32) {
            return Err(Error::from_message("账户被禁用!"));
        }
        if u.password.is_none() {
            return Err(Error::with_code("错误的用户数据，密码为空!", util::NOT_PARAMETER_CODE));
        }
        if !password_matches {
            return Err(Error::from_message("账户或密码不正确!"));
        }
        Ok(copy_user(u))
    }
}

/// Whether `encoded` is what the password encoder `encode` gives for the
/// password `plain`.
pub open spec fn encodes<F: Fn(String) -> String>(encode: F, plain: Seq<char>, encoded: String) -> bool {
    exists|p: String| p@ == plain && #[trigger] call_ensures(encode, (p,), encoded)
}

/// Whether an account's state keeps it from signing in: 0 (disabled) or 2
/// (locked); 1 is a normal account.
pub open spec fn disabled_state(state: Option<u32>) -> bool {
    state == Some(0u32) || state == Some(2u32)
}

/// The error of a request whose form token is missing or spent.
pub fn spent_token() -> (e: Error)
    ensures
        e.message() == Seq::<char>::empty(),
        e.code() == util::TOKEN_ERROR_CODE,
{
    Error::from_code(util::TOKEN_ERROR_CODE)
}

/// The password a new account starts with: the one given, or `123456`.
pub open spec fn initial_password(arg: UserDTO) -> Seq<char> {
    if blank(arg.password) {
        "123456"@
    } else {
        arg.password.unwrap()@
    }
}

/// Whether a request to create an account lacks a field it needs.
pub open spec fn account_params_missing(arg: UserDTO) -> bool {
    ||| blank(arg.account)
    ||| blank(arg.name)
    ||| blank(arg.email)
    ||| blank(arg.phone)
    ||| arg.organize_id is None
}

/// The error of an account that exists already: "账户:<account>已存在!".
pub open spec fn account_taken_message(account: Seq<char>) -> Seq<char> {
    "账户:"@ + account + "已存在!"@
}

/// The statistics of the logs of a month: the count and its daily mean, and
/// the counts of the six months before.
pub open spec fn daily_mean_days(month: (i32, u32, u32), today: Day) -> int {
    if today.year == month.0 && today.month == month.1 {
        today.day as int
    } else {
        month_days(month.0 as int, month.1 as int)
    }
}

/// Whether a count row is the zero count of `name`.
pub open spec fn zero_entry(t: TotalTable, name: Seq<char>) -> bool {
    &&& t.name matches Some(n) && n@ == name
    &&& t.value == Some(0i32)
}

/// The figures of the charts of how much an organization holds.
#[derive(Clone, Debug)]
pub struct ObjectRows {
    /// Notes per notebook.
    pub word_cloud: Vec<TotalTable>,
    /// Rows per kind of item.
    pub rose_data: Vec<TotalTable>,
}

/// A copy of a count row.
fn copy_count_row(t: &TotalTable) -> (r: TotalTable)
    ensures
        r == *t,
{
    TotalTable { name: t.name.clone(), value: t.value }
}

/// A count row.
fn count_row(name: &str, value: i32) -> (r: TotalTable)
    ensures
        r.name matches Some(n) && n@ == name@,
        r.value == Some(value),
{
    TotalTable { name: Some(String::from_str(name)), value: Some(value) }
}

impl SystemService {
    /// The password that a new account's record stores, before encoding:
    /// the one given, or `123456` where none is.
    pub fn user_add_password(arg: &UserDTO) -> (r: String)
        ensures
            r@ == initial_password(*arg),
    {
        if is_blank(&arg.password) {
            String::from_str("123456")
        } else {
            string_or_empty(&arg.password)
        }
    }

    /// The record of a new account created at `now`: `token_ok` says
    /// whether the form token was good, `taken` whether the account exists
    /// already, `encode` is the password encoder, applied to
    /// `user_add_password`.
    /// Account, name, e-mail, phone and organization must be given. The
    /// account starts enabled.
    pub fn user_add<F: Fn(String) -> String>(
        &self,
        arg: &UserDTO,
        token_ok: bool,
        taken: bool,
        encode: F,
        now: String,
    ) -> (r: Result<User, Error>)
        requires
            forall|p: String| call_requires(encode, (p,)),
        ensures
            !token_ok ==> (r matches Err(e) && e.code() == util::TOKEN_ERROR_CODE),
            token_ok && account_params_missing(*arg) ==> (r matches Err(e) && e.message()
                == "账号、姓名、手机号、邮箱以及所属组织不能为空!"@ && e.code()
                == util::NOT_PARAMETER_CODE),
            token_ok && !account_params_missing(*arg) && taken ==> (r matches Err(e) && e.message()
                == account_taken_message(arg.account.unwrap()@) && e.code() == util::CODE_FAIL),
            token_ok && !account_params_missing(*arg) && !taken ==> (r matches Ok(u) && u.password matches Some(
                pw,
            ) && encodes(encode, initial_password(*arg), pw)),
            token_ok && !account_params_missing(*arg) && !taken ==> r == Ok::<User, Error>(
                User {
                    account: arg.account,
                    name: arg.name,
                    password: r.unwrap().password,
                    sex: arg.sex,
                    qq: arg.qq,
                    email: arg.email,
                    phone: arg.phone,
                    birthday: arg.birthday,
                    hometown: arg.hometown,
                    autograph: arg.autograph,
                    logo: arg.logo,
                    background: arg.background,
                    organize_id: arg.organize_id,
                    state: Some(1u32),
                    create_time: Some(now),
                    update_time: None,
                },
            ),
    {
        if !token_ok {
            return Err(spent_token());
        }
        if is_blank(&arg.account) || is_blank(&arg.name) || is_blank(&arg.email) || is_blank(&arg.phone)
            || arg.organize_id.is_none() {
            return Err(
                Error::with_code(
                    "账号、姓名、手机号、邮箱以及所属组织不能为空!",
                    util::NOT_PARAMETER_CODE,
                ),
            );
        }
        if taken {
            let mut m = String::from_str("账户:");
            m.append(string_or_empty(&arg.account).as_str());
            m.append("已存在!");
            return Err(Error::E(m, util::CODE_FAIL));
        }
        let encoded = encode(SystemService::user_add_password(arg));
        Ok(
            User {
                account: arg.account.clone(),
                name: arg.name.clone(),
                password: Some(encoded),
                sex: arg.sex.clone(),
                qq: arg.qq.clone(),
                email: arg.email.clone(),
                phone: arg.phone.clone(),
                birthday: arg.birthday.clone(),
                hometown: arg.hometown.clone(),
                autograph: arg.autograph.clone(),
                logo: arg.logo.clone(),
                background: arg.background,
                organize_id: arg.organize_id,
                state: Some(1),
                create_time: Some(now),
                update_time: None,
            },
        )
    }

    /// The record that changes the account `exist` at `now`: everything but
    /// the account name and creation time comes from the request; the
    /// password changes only where one is given, to its encoding by
    /// `encode`. The account must be given and exist.
    pub fn user_edit<F: Fn(String) -> String>(
        &self,
        arg: &UserDTO,
        token_ok: bool,
        exist: &Option<User>,
        encode: F,
        now: String,
    ) -> (r: Result<User, Error>)
        requires
            forall|p: String| call_requires(encode, (p,)),
        ensures
            !token_ok ==> (r matches Err(e) && e.code() == util::TOKEN_ERROR_CODE),
            token_ok && blank(arg.account) ==> (r matches Err(e) && e.message() == "账号account不能为空!"@
                && e.code() == util::NOT_PARAMETER_CODE),
            token_ok && !blank(arg.account) && exist is None ==> (r matches Err(e) && e.message()
                == missing_account_message(arg.account.unwrap()@) && e.code() == util::NOT_EXIST_CODE),
            token_ok && !blank(arg.account) && exist is Some && arg.password is Some ==> (r matches Ok(u)
                && u.password matches Some(pw) && encodes(encode, arg.password.unwrap()@, pw)),
            token_ok && !blank(arg.account) && exist is Some ==> r == Ok::<User, Error>(
                User {
                    account: exist.unwrap().account,
                    name: arg.name,
                    password: if arg.password is Some {
                        r.unwrap().password
                    } else {
                        exist.unwrap().password
                    },
                    sex: arg.sex,
                    qq: arg.qq,
                    email: arg.email,
                    phone: arg.phone,
                    birthday: arg.birthday,
                    hometown: arg.hometown,
                    autograph: arg.autograph,
                    logo: arg.logo,
                    background: arg.background,
                    organize_id: arg.organize_id,
                    state: arg.state,
                    create_time: exist.unwrap().create_time,
                    update_time: Some(now),
                },
            ),
    {
        if !token_ok {
            return Err(spent_token());
        }
        if is_blank(&arg.account) {
            return Err(Error::with_code("账号account不能为空!", util::NOT_PARAMETER_CODE));
        }
        let old = match exist {
            Some(u) => u,
            None => {
                return Err(missing_account(string_or_empty(&arg.account).as_str()));
            },
        };
        let password = match &arg.password {
            Some(p) => Some(encode(p.clone())),
            None => old.password.clone(),
        };
        Ok(
            User {
                account: old.account.clone(),
                name: arg.name.clone(),
                password,
                sex: arg.sex.clone(),
                qq: arg.qq.clone(),
                email: arg.email.clone(),
                phone: arg.phone.clone(),
                birthday: arg.birthday.clone(),
                hometown: arg.hometown.clone(),
                autograph: arg.autograph.clone(),
                logo: arg.logo.clone(),
                background: arg.background,
                organize_id: arg.organize_id,
                state: arg.state,
                create_time: old.create_time.clone(),
                update_time: Some(now),
            },
        )
    }

    /// The record that changes the password of the account `exist` at
    /// `now` (`encode` encodes the new one); every
    /// other field is left out. The password must be given and the account
    /// exist.
    pub fn user_update_password<F: Fn(String) -> String>(
        &self,
        arg: &UserDTO,
        token_ok: bool,
        exist: &Option<User>,
        encode: F,
        now: String,
    ) -> (r: Result<User, Error>)
        requires
            forall|p: String| call_requires(encode, (p,)),
            token_ok && !blank(arg.password) ==> arg.account is Some,
        ensures
            !token_ok ==> (r matches Err(e) && e.code() == util::TOKEN_ERROR_CODE),
            token_ok && blank(arg.password) ==> (r matches Err(e) && e.message() == "密码不能为空!"@
                && e.code() == util::NOT_PARAMETER_CODE),
            token_ok && !blank(arg.password) && exist is None ==> (r matches Err(e) && e.message()
                == missing_account_message(arg.account.unwrap()@) && e.code() == util::NOT_EXIST_CODE),
            token_ok && !blank(arg.password) && exist is Some ==> (r matches Ok(u) && u.password matches Some(
                pw,
            ) && encodes(encode, arg.password.unwrap()@, pw)),
            token_ok && !blank(arg.password) && exist is Some ==> r == Ok::<User, Error>(
                User {
                    account: exist.unwrap().account,
                    name: None,
                    password: r.unwrap().password,
                    sex: None,
                    qq: None,
                    email: None,
                    phone: None,
                    birthday: None,
                    hometown: None,
                    autograph: None,
                    logo: None,
                    background: None,
                    organize_id: None,
                    state: None,
                    create_time: None,
                    update_time: Some(now),
                },
            ),
    {
        if !token_ok {
            return Err(spent_token());
        }
        if is_blank(&arg.password) {
            return Err(Error::with_code("密码不能为空!", util::NOT_PARAMETER_CODE));
        }
        let old = match exist {
            Some(u) => u,
            None => {
                return Err(missing_account(string_or_empty(&arg.account).as_str()));
            },
        };
        let encoded = encode(string_or_empty(&arg.password));
        Ok(
            User {
                account: old.account.clone(),
                name: None,
                password: Some(encoded),
                sex: None,
                qq: None,
                email: None,
                phone: None,
                birthday: None,
                hometown: None,
                autograph: None,
                logo: None,
                background: None,
                organize_id: None,
                state: None,
                create_time: None,
                update_time: Some(now),
            },
        )
    }

    /// Whether an account may be deleted: its name must be given.
    pub fn user_remove(&self, account: &str) -> (r: Result<(), Error>)
        ensures
            account@.len() == 0 ==> (r matches Err(e) && e.message() == "account 不能为空！"@ && e.code()
                == util::NOT_PARAMETER_CODE),
            account@.len() > 0 ==> r is Ok,
    {
        if account.unicode_len() == 0 {
            return Err(Error::with_code("account 不能为空！", util::NOT_PARAMETER_CODE));
        }
        Ok(())
    }

    /// The account named in the request, as shown; `user` is what the
    /// lookup found.
    pub fn user_detail(&self, arg: &UserDTO, user: &Option<User>) -> (r: Result<UserVO, Error>)
        ensures
            user is None ==> (r matches Err(e) && e.message() == missing_account_message(
                text_or_empty(arg.account),
            ) && e.code() == util::NOT_EXIST_CODE),
            user is Some ==> r == Ok::<UserVO, Error>(shown_user(user.unwrap())),
    {
        match user {
            Some(u) => Ok(UserVO::from(copy_user(u))),
            None => Err(missing_account(string_or_empty(&arg.account).as_str())),
        }
    }

    /// The caller's own account, as shown: `context` is the caller's
    /// session, `user` what the lookup of its account found.
    pub fn user_get_info_by_token(&self, context: &Option<UserContext>, user: &Option<User>) -> (r: Result<UserVO, Error>)
        ensures
            context is None ==> (r matches Err(e) && e.code() == util::NOT_AUTHORIZE_CODE),
            context is Some && user is None ==> (r matches Err(e) && e.message()
                == missing_account_message(context.unwrap().account@) && e.code() == util::NOT_EXIST_CODE),
            context is Some && user is Some ==> r == Ok::<UserVO, Error>(shown_user(user.unwrap())),
    {
        let c = match context {
            Some(c) => c,
            None => {
                return Err(Error::from_code(util::NOT_AUTHORIZE_CODE));
            },
        };
        match user {
            Some(u) => Ok(UserVO::from(copy_user(u))),
            None => Err(missing_account(c.account.as_str())),
        }
    }

    /// The activity of the month of `month` (a date written `%Y-%m-%d`):
    /// `count` logs, their mean per day (over the days gone by where the
    /// month is that of `today`, over all its days otherwise), and `rows`,
    /// the counts of the months before.
    pub fn compute_pre6_logs(&self, month: &str, today: Day, count: u64, rows: Vec<TotalPre6MonthVO>) -> (r: Result<
        TotalLogVO,
        Error,
    >)
        requires
            today.wf(),
        ensures
            parsed_date(month@) is None ==> (r matches Err(e) && e.message() == "统计月份不能为空!"@
                && e.code() == util::NOT_PARAMETER_CODE),
            parsed_date(month@) matches Some(d) ==> (r matches Ok(t) && t.count == Some(count) && t.log6
                == Some(rows) && t.avg == Some((count as int / daily_mean_days(d, today)) as u64)),
    {
        let (year, mon, day) = match parse_date(month) {
            Some(d) => d,
            None => {
                return Err(Error::with_code("统计月份不能为空!", util::NOT_PARAMETER_CODE));
            },
        };
        let days: u64 = if today.year == year && today.month == mon {
            today.day as u64
        } else {
            DateUtils::get_current_month_days(year, mon) as u64
        };
        Ok(TotalLogVO { avg: Some(count / days), count: Some(count), log6: Some(rows) })
    }

    /// The charts of how much the caller's organization holds, from the
    /// counts queried: `notebooks` (notes per notebook), `plans` (the plan
    /// count) and `items` (files, pictures, notebooks, notes, news), each
    /// `None` where its query failed. A failed count shows as zeros.
    pub fn compute_object_rows(
        &self,
        notebooks: Option<Vec<TotalTable>>,
        plans: Option<Vec<TotalTable>>,
        items: Option<Vec<TotalTable>>,
    ) -> (r: ObjectRows)
        ensures
            r.word_cloud@ == match notebooks {
                Some(n) => n@,
                None => Seq::empty(),
            },
            ({
                let k: int = match plans {
                    Some(p) => p.len() as int,
                    None => 1,
                };
                &&& plans matches Some(p) ==> r.rose_data@.subrange(0, k) == p@
                &&& plans is None ==> zero_entry(r.rose_data@[0], "计划"@)
                &&& items matches Some(b) ==> (r.rose_data.len() == k + b.len()
                    && r.rose_data@.subrange(k, k + b.len()) == b@)
                &&& items is None ==> (r.rose_data.len() == k + 5 && zero_entry(r.rose_data@[k], "文件"@)
                    && zero_entry(r.rose_data@[k + 1], "图片"@) && zero_entry(r.rose_data@[k + 2], "笔记簿"@)
                    && zero_entry(r.rose_data@[k + 3], "笔记"@) && zero_entry(r.rose_data@[k + 4], "动态"@))
            }),
    {
        let word_cloud = match notebooks {
            Some(n) => n,
            None => Vec::new(),
        };
        let mut rose_data: Vec<TotalTable> = match plans {
            Some(p) => p,
            None => {
                let mut v: Vec<TotalTable> = Vec::new();
                v.push(count_row("计划", 0));
                v
            },
        };
        let ghost head = rose_data@;
        match items {
            Some(b) => {
                let mut i: usize = 0;
                while i < b.len()
                    invariant
                        i <= b.len(),
                        rose_data@ == head + b@.subrange(0, i as int),
                    decreases b.len() - i,
                {
                    rose_data.push(copy_count_row(&b[i]));
                    proof {
                        assert(b@.subrange(0, i + 1) =~= b@.subrange(0, i as int).push(b@[i as int]));
                    }
                    i = i + 1;
                }
                proof {
                    assert(rose_data@.subrange(0, head.len() as int) =~= head);
                    assert(rose_data@.subrange(head.len() as int, head.len() + b.len()) =~= b@);
                }
            },
            None => {
                rose_data.push(count_row("文件", 0));
                rose_data.push(count_row("图片", 0));
                rose_data.push(count_row("笔记簿", 0));
                rose_data.push(count_row("笔记", 0));
                rose_data.push(count_row("动态", 0));
                proof {
                    assert(rose_data@.subrange(0, head.len() as int) =~= head);
                }
            },
        }
        ObjectRows { word_cloud, rose_data }
    }

    /// The record that changes the archived plan `exist`: whether it is done
    /// (`status`) and whether it shows (`display`) come from the request;
    /// the rest stays. The id must be given and the archived plan exist.
    pub fn edit_plan_archive(&self, arg: &PlanArchiveDTO, token_ok: bool, exist: &Option<PlanArchive>) -> (r:
        Result<PlanArchive, Error>)
        ensures
            !token_ok ==> (r matches Err(e) && e.code() == util::TOKEN_ERROR_CODE),
            token_ok && arg.id is None ==> (r matches Err(e) && e.message() == "归档计划id不能为空!"@
                && e.code() == util::NOT_PARAMETER_CODE),
            token_ok && arg.id is Some && exist is None ==> (r matches Err(e) && e.message()
                == missing_item_message(arg.id.unwrap(), "归档提醒事项"@) && e.code()
                == util::NOT_EXIST_CODE),
            token_ok && arg.id is Some && exist is Some ==> r == Ok::<PlanArchive, Error>(
                PlanArchive { status: arg.status, display: arg.display, ..exist.unwrap() },
            ),
    {
        if !token_ok {
            return Err(spent_token());
        }
        let id = match arg.id {
            Some(id) => id,
            None => {
                return Err(Error::with_code("归档计划id不能为空!", util::NOT_PARAMETER_CODE));
            },
        };
        let old = match exist {
            Some(p) => p,
            None => {
                return Err(missing_item(id, "归档提醒事项"));
            },
        };
        Ok(
            PlanArchive {
                id: old.id,
                status: arg.status,
                title: old.title.clone(),
                content: old.content.clone(),
                notice_user: old.notice_user.clone(),
                archive_time: old.archive_time.clone(),
                organize: old.organize,
                user: old.user.clone(),
                display: arg.display,
                create_time: old.create_time.clone(),
                update_time: old.update_time.clone(),
            },
        )
    }
}

/// Whether a request to create a plan lacks a field it needs.
pub open spec fn plan_params_missing(arg: PlanDTO) -> bool {
    ||| arg.standard_time is None
    ||| arg.cycle is None
    ||| arg.unit is None
    ||| blank(arg.content)
}

/// The moment a plan's time text reads as, if it reads.
pub open spec fn plan_moment(text: Option<String>) -> Option<DayTime> {
    match text {
        Some(t) => match parsed_datetime(t@) {
            Some(p) => Some(moment_of(p)),
            None => None,
        },
        None => None,
    }
}

/// The text of a moment as the plans store it.
pub open spec fn moment_text(t: DayTime) -> Seq<char> {
    datetime_text(t.date.year, t.date.month, t.date.day, t.hour, t.minute, t.second)
}

/// Where a plan stands after the next run is reckoned from its time `text`:
/// the time unreadable, no next run, or the next run.
pub enum Reckoning {
    Unreadable,
    NoNextRun,
    Next(DayTime),
}

/// The next run of a plan whose time is `text`, with `cycle` and `unit`.
pub open spec fn reckoning(text: Option<String>, cycle: u32, unit: u32) -> Reckoning {
    match plan_moment(text) {
        None => Reckoning::Unreadable,
        Some(t) => match next_run(t, cycle, unit) {
            None => Reckoning::NoNextRun,
            Some(n) => Reckoning::Next(n),
        },
    }
}

/// What finishing a plan ahead of time does.
#[derive(Clone, Debug)]
pub enum PlanFinish {
    /// A one-off plan: the archive entry to insert (a failed insert is only
    /// logged), the plan to delete, given as its id and the caller's
    /// organization, and the answer, 0.
    OneOff { archive: PlanArchive, plan_id: u64, organize: u64, answer: u64 },
    /// A recurring plan: it is archived, and gets this row, moved to its
    /// next run.
    Recurring(Plan, PlanArchive),
}

/// The archive entry of a plan finished at `now`: done (status 3), at the
/// plan's time.
pub open spec fn finished_entry(p: Plan, now: String) -> PlanArchive {
    PlanArchive {
        id: None,
        status: Some(3),
        title: p.title,
        content: p.content,
        notice_user: None,
        archive_time: p.standard_time,
        organize: p.organize,
        user: p.user,
        display: p.display,
        create_time: Some(now),
        update_time: None,
    }
}

/// Reads a plan's time and reckons its next run.
fn reckon(text: &Option<String>, cycle: u32, unit: u32) -> (r: Result<DayTime, Error>)
    ensures
        match reckoning(*text, cycle, unit) {
            Reckoning::Unreadable => r matches Err(e) && e.message() == "创建提醒事项失败"@ && e.code()
                == util::CODE_FAIL,
            Reckoning::NoNextRun => r matches Err(e) && e.message() == "无效的日期循环周期"@ && e.code()
                == util::CODE_FAIL,
            Reckoning::Next(n) => r == Ok::<DayTime, Error>(n),
        },
        r matches Ok(n) ==> n.wf() && one_cycle_later(plan_moment(*text).unwrap(), cycle, unit, n),
{
    let t = match text {
        Some(t) => match parse_datetime(t.as_str()) {
            Some(t) => t,
            None => {
                return Err(Error::from_message("创建提醒事项失败"));
            },
        },
        None => {
            return Err(Error::from_message("创建提醒事项失败"));
        },
    };
    match DateUtils::plan_data_compute(t, cycle, unit) {
        Some(n) => Ok(n),
        None => Err(Error::from_message("无效的日期循环周期")),
    }
}

impl SystemService {
    /// The plan that a request creates for the caller `context` at `now`.
    /// Time, cycle, unit and content must be given; the time must read as
    /// `%Y-%m-%d %H:%M:%S` and have a next run by the cycle; the caller must
    /// be known. A one-off plan (cycle 1) has no next run time stored.
    pub fn add_plan(&self, arg: &PlanDTO, token_ok: bool, context: &Option<UserContext>, now: String) -> (r: Result<
        Plan,
        Error,
    >)
        ensures
            !token_ok ==> (r matches Err(e) && e.code() == util::TOKEN_ERROR_CODE),
            token_ok && plan_params_missing(*arg) ==> (r matches Err(e) && e.message()
                == "基准时间、重复执行周期、单位和内容不能为空!"@ && e.code()
                == util::NOT_PARAMETER_CODE),
            token_ok && !plan_params_missing(*arg) ==> match reckoning(
                arg.standard_time,
                arg.cycle.unwrap(),
                arg.unit.unwrap(),
            ) {
                Reckoning::Unreadable => r matches Err(e) && e.message() == "创建提醒事项失败"@
                    && e.code() == util::CODE_FAIL,
                Reckoning::NoNextRun => r matches Err(e) && e.message() == "无效的日期循环周期"@
                    && e.code() == util::CODE_FAIL,
                Reckoning::Next(n) => match context {
                    None => r matches Err(e) && e.code() == util::NOT_AUTHORIZE_CODE,
                    Some(c) => r matches Ok(p) && p == (Plan {
                        id: None,
                        standard_time: arg.standard_time,
                        cycle: arg.cycle,
                        unit: arg.unit,
                        title: arg.title,
                        content: arg.content,
                        notice_user: None,
                        next_exec_time: p.next_exec_time,
                        check_up: None,
                        organize: Some(c.organize),
                        user: Some(c.account),
                        display: arg.display,
                        create_time: Some(now),
                        update_time: None,
                    }) && (arg.cycle == Some(1u32) ==> p.next_exec_time is None) && (arg.cycle
                        != Some(1u32) ==> (p.next_exec_time matches Some(x) && x@ == moment_text(n))),
                },
            },
    {
        if !token_ok {
            return Err(spent_token());
        }
        if arg.standard_time.is_none() || arg.cycle.is_none() || arg.unit.is_none() || is_blank(
            &arg.content,
        ) {
            return Err(
                Error::with_code(
                    "基准时间、重复执行周期、单位和内容不能为空!",
                    util::NOT_PARAMETER_CODE,
                ),
            );
        }
        let cycle = match arg.cycle {
            Some(c) => c,
            None => 0,
        };
        let unit = match arg.unit {
            Some(u) => u,
            None => 0,
        };
        let next = match reckon(&arg.standard_time, cycle, unit) {
            Ok(n) => n,
            Err(e) => {
                return Err(e);
            },
        };
        let c = match context {
            Some(c) => c,
            None => {
                return Err(Error::from_code(util::NOT_AUTHORIZE_CODE));
            },
        };
        let next_exec_time = if cycle == 1 {
            None
        } else {
            Some(format_datetime(next))
        };
        Ok(
            Plan {
                id: None,
                standard_time: arg.standard_time.clone(),
                cycle: Some(cycle),
                unit: arg.unit,
                title: arg.title.clone(),
                content: arg.content.clone(),
                notice_user: None,
                next_exec_time,
                check_up: None,
                organize: Some(c.organize),
                user: Some(c.account.clone()),
                display: arg.display,
                create_time: Some(now),
                update_time: None,
            },
        )
    }

    /// The row that a request writes into the plan `exist` of the caller
    /// `context` at `now`: time, cycle, unit, title, content and display
    /// come from the request, the next run is reckoned anew. Id, time,
    /// cycle, unit and content must be given, the caller known, the plan
    /// found; the time must read and have a next run by the cycle.
    pub fn edit_plan(
        &self,
        arg: &PlanDTO,
        token_ok: bool,
        context: &Option<UserContext>,
        exist: &Option<Plan>,
        now: String,
    ) -> (r: Result<Plan, Error>)
        ensures
            !token_ok ==> (r matches Err(e) && e.code() == util::TOKEN_ERROR_CODE),
            token_ok && (arg.id is None || plan_params_missing(*arg)) ==> (r matches Err(e)
                && e.message() == "基准时间、重复执行周期、单位和内容不能为空!"@ && e.code()
                == util::NOT_PARAMETER_CODE),
            token_ok && arg.id is Some && !plan_params_missing(*arg) && context is None ==> (r matches Err(
                e,
            ) && e.code() == util::NOT_AUTHORIZE_CODE),
            token_ok && arg.id is Some && !plan_params_missing(*arg) && context is Some && exist is None
                ==> (r matches Err(e) && e.message() == missing_item_message(arg.id.unwrap(), "提醒事项"@)
                && e.code() == util::NOT_EXIST_CODE),
            token_ok && arg.id is Some && !plan_params_missing(*arg) && context is Some && exist is Some
                ==> match reckoning(arg.standard_time, arg.cycle.unwrap(), arg.unit.unwrap()) {
                Reckoning::Unreadable => r matches Err(e) && e.message() == "创建提醒事项失败"@
                    && e.code() == util::CODE_FAIL,
                Reckoning::NoNextRun => r matches Err(e) && e.message() == "无效的日期循环周期"@
                    && e.code() == util::CODE_FAIL,
                Reckoning::Next(n) => r matches Ok(p) && p == (Plan {
                    id: exist.unwrap().id,
                    standard_time: arg.standard_time,
                    cycle: arg.cycle,
                    unit: arg.unit,
                    title: arg.title,
                    content: arg.content,
                    notice_user: None,
                    next_exec_time: p.next_exec_time,
                    check_up: None,
                    organize: exist.unwrap().organize,
                    user: Some(context.unwrap().account),
                    display: arg.display,
                    create_time: None,
                    update_time: Some(now),
                }) && (arg.cycle == Some(1u32) ==> p.next_exec_time is None) && (arg.cycle != Some(
                    1u32,
                ) ==> (p.next_exec_time matches Some(x) && x@ == moment_text(n))),
            },
    {
        if !token_ok {
            return Err(spent_token());
        }
        if arg.id.is_none() || arg.standard_time.is_none() || arg.cycle.is_none() || arg.unit.is_none()
            || is_blank(&arg.content) {
            return Err(
                Error::with_code(
                    "基准时间、重复执行周期、单位和内容不能为空!",
                    util::NOT_PARAMETER_CODE,
                ),
            );
        }
        let c = match context {
            Some(c) => c,
            None => {
                return Err(Error::from_code(util::NOT_AUTHORIZE_CODE));
            },
        };
        let id = match arg.id {
            Some(id) => id,
            None => 0,
        };
        let old = match exist {
            Some(p) => p,
            None => {
                return Err(missing_item(id, "提醒事项"));
            },
        };
        let cycle = match arg.cycle {
            Some(c) => c,
            None => 0,
        };
        let unit = match arg.unit {
            Some(u) => u,
            None => 0,
        };
        let next = match reckon(&arg.standard_time, cycle, unit) {
            Ok(n) => n,
            Err(e) => {
                return Err(e);
            },
        };
        let next_exec_time = if cycle == 1 {
            None
        } else {
            Some(format_datetime(next))
        };
        Ok(
            Plan {
                id: old.id,
                standard_time: arg.standard_time.clone(),
                cycle: Some(cycle),
                unit: arg.unit,
                title: arg.title.clone(),
                content: arg.content.clone(),
                notice_user: None,
                next_exec_time,
                check_up: None,
                organize: old.organize,
                user: Some(c.account.clone()),
                display: arg.display,
                create_time: None,
                update_time: Some(now),
            },
        )
    }

    /// Finishes the plan `exist` of the caller `context` ahead of time, at
    /// `now`: it is archived as done, at its time. A one-off plan (cycle 1)
    /// goes; a recurring one moves to its next run (its time becomes the
    /// stored next run time, and the run after is reckoned from it).
    pub fn advance_finish_plan(
        &self,
        arg: &PlanDTO,
        token_ok: bool,
        context: &Option<UserContext>,
        exist: &Option<Plan>,
        now: String,
    ) -> (r: Result<PlanFinish, Error>)
        requires
            token_ok ==> arg.id is Some,
            token_ok && context is Some && exist is Some ==> exist.unwrap().cycle is Some,
            token_ok && context is Some && exist is Some && exist.unwrap().cycle != Some(1u32) ==> (
            exist.unwrap().next_exec_time is Some && exist.unwrap().unit is Some),
        ensures
            !token_ok ==> (r matches Err(e) && e.code() == util::TOKEN_ERROR_CODE),
            token_ok && context is None ==> (r matches Err(e) && e.code() == util::NOT_AUTHORIZE_CODE),
            token_ok && context is Some && exist is None ==> (r matches Err(e) && e.message()
                == missing_item_message(arg.id.unwrap(), "提醒事项"@) && e.code() == util::NOT_EXIST_CODE),
            token_ok && context is Some && exist is Some && exist.unwrap().cycle == Some(1u32) ==> r
                == Ok::<PlanFinish, Error>(
                PlanFinish::OneOff {
                    archive: finished_entry(exist.unwrap(), now),
                    plan_id: arg.id.unwrap(),
                    organize: context.unwrap().organize,
                    answer: 0,
                },
            ),
            token_ok && context is Some && exist is Some && exist.unwrap().cycle != Some(1u32) ==> match reckoning(
                exist.unwrap().next_exec_time,
                exist.unwrap().cycle.unwrap(),
                exist.unwrap().unit.unwrap(),
            ) {
                Reckoning::Unreadable => r matches Err(e) && e.message() == "创建提醒事项失败"@
                    && e.code() == util::CODE_FAIL,
                Reckoning::NoNextRun => r matches Err(e) && e.message() == "无效的日期循环周期"@
                    && e.code() == util::CODE_FAIL,
                Reckoning::Next(n) => r matches Ok(PlanFinish::Recurring(p, a)) && a == finished_entry(
                    exist.unwrap(),
                    now,
                ) && p == (Plan {
                    standard_time: exist.unwrap().next_exec_time,
                    next_exec_time: p.next_exec_time,
                    ..exist.unwrap()
                }) && (p.next_exec_time matches Some(x) && x@ == moment_text(n)),
            },
    {
        if !token_ok {
            return Err(spent_token());
        }
        let id = match arg.id {
            Some(id) => id,
            None => 0,
        };
        let organize = match context {
            Some(c) => c.organize,
            None => {
                return Err(Error::from_code(util::NOT_AUTHORIZE_CODE));
            },
        };
        let old = match exist {
            Some(p) => p,
            None => {
                return Err(missing_item(id, "提醒事项"));
            },
        };
        let entry = PlanArchive {
            id: None,
            status: Some(3),
            title: old.title.clone(),
            content: old.content.clone(),
            notice_user: None,
            archive_time: old.standard_time.clone(),
            organize: old.organize,
            user: old.user.clone(),
            display: old.display,
            create_time: Some(now),
            update_time: None,
        };
        let cycle = match old.cycle {
            Some(c) => c,
            None => 0,
        };
        if cycle == 1 {
            return Ok(PlanFinish::OneOff { archive: entry, plan_id: id, organize, answer: 0 });
        }
        let unit = match old.unit {
            Some(u) => u,
            None => 0,
        };
        let next = match reckon(&old.next_exec_time, cycle, unit) {
            Ok(n) => n,
            Err(e) => {
                return Err(e);
            },
        };
        let moved = Plan {
            id: old.id,
            standard_time: old.next_exec_time.clone(),
            cycle: old.cycle,
            unit: old.unit,
            title: old.title.clone(),
            content: old.content.clone(),
            notice_user: old.notice_user.clone(),
            next_exec_time: Some(format_datetime(next)),
            check_up: old.check_up,
            organize: old.organize,
            user: old.user.clone(),
            display: old.display,
            create_time: old.create_time.clone(),
            update_time: old.update_time.clone(),
        };
        Ok(PlanFinish::Recurring(moved, entry))
    }
}

/// The calendar of a month is made of whole weeks, and holds every day of
/// the month in less than a week more than it needs.
pub proof fn lemma_grid_whole_weeks(year: int, month: int, day: int)
    requires
        1 <= month <= 12,
    ensures
        grid_len(year, month, day) % 7 == 0,
        grid_len(year, month, day) >= month_days(year, month) + grid_first_cell(year, month, day) - 1,
        grid_len(year, month, day) < month_days(year, month) + grid_first_cell(year, month, day) - 1 + 7,
{
    let used = month_days(year, month) + grid_first_cell(year, month, day) - 1;
    assert(0 <= weekday_from_sunday(year, month, day) < 7);
    if used % 7 != 0 {
        assert((used / 7 + 1) * 7 == used / 7 * 7 + 7);
        assert(((used / 7 + 1) * 7) % 7 == 0) by (nonlinear_arith);
    }
}

/// Every day of a month has exactly one cell of the calendar: the one that
/// shows it.
pub proof fn lemma_grid_day_has_one_cell(year: int, month: int, day: int, k: int)
    requires
        1 <= month <= 12,
        1 <= k <= month_days(year, month),
    ensures
        ({
            let n = k + grid_first_cell(year, month, day) - 1;
            &&& 1 <= n <= grid_len(year, month, day)
            &&& cell_in_month(year, month, day, n)
            &&& cell_day(year, month, day, n) == k
        }),
        forall|m: int|
            #![trigger cell_day(year, month, day, m)]
            cell_in_month(year, month, day, m) && cell_day(year, month, day, m) == k ==> m == k
                + grid_first_cell(year, month, day) - 1,
{
    lemma_grid_whole_weeks(year, month, day);
}

/// Every cell of the calendar that shows a day shows one of the month.
pub proof fn lemma_grid_cell_shows_month_day(year: int, month: int, day: int, n: int)
    requires
        cell_in_month(year, month, day, n),
    ensures
        1 <= cell_day(year, month, day, n) <= month_days(year, month),
{
}

impl SystemService {
    /// Checking a password alone is not offered: it is always refused.
    pub fn check_password(&self, arg: &SignInDTO) -> (r: Result<SignInVO, Error>)
        ensures
            r matches Err(e) && e.message() == "方法未实现!"@ && e.code() == util::CODE_FAIL,
    {
        Err(Error::from_message("方法未实现!"))
    }
}

impl SystemService {
    /// What deleting the plan `id` for the caller `context` deletes: the
    /// plan `id` of the caller's organization, given as id and organization.
    pub fn delete_plan(&self, id: u64, context: &Option<UserContext>) -> (r: Result<(u64, u64), Error>)
        ensures
            context is None ==> (r matches Err(e) && e.code() == util::NOT_AUTHORIZE_CODE),
            context is Some ==> r == Ok::<(u64, u64), Error>((id, context.unwrap().organize)),
    {
        match context {
            Some(c) => Ok((id, c.organize)),
            None => Err(Error::from_code(util::NOT_AUTHORIZE_CODE)),
        }
    }

    /// What deleting the archived plan `id` for the caller `context`
    /// deletes: the archived plan `id`, whatever its organization.
    pub fn delete_plan_archive(&self, id: u64, context: &Option<UserContext>) -> (r: Result<u64, Error>)
        ensures
            context is None ==> (r matches Err(e) && e.code() == util::NOT_AUTHORIZE_CODE),
            context is Some ==> r == Ok::<u64, Error>(id),
    {
        match context {
            Some(_) => Ok(id),
            None => Err(Error::from_code(util::NOT_AUTHORIZE_CODE)),
        }
    }

    /// The account whose organization's users are listed: the caller's.
    pub fn user_get_own_organize(&self, context: &Option<UserContext>) -> (r: Result<String, Error>)
        ensures
            context is None ==> (r matches Err(e) && e.code() == util::NOT_AUTHORIZE_CODE),
            context is Some ==> r == Ok::<String, Error>(context.unwrap().account),
    {
        match context {
            Some(c) => Ok(c.account.clone()),
            None => Err(Error::from_code(util::NOT_AUTHORIZE_CODE)),
        }
    }
}

/// The header row of the log export sheet.
pub open spec fn log_sheet_header() -> Seq<Seq<char>> {
    seq!["用户"@, "操作详情"@, "IP"@, "城市"@, "日期"@]
}

/// Whether every field that the log export shows is present in `v`.
pub open spec fn log_row_complete(v: LogVO) -> bool {
    v.user is Some && v.category is Some && v.ip is Some && v.city is Some && v.date is Some
}

/// The row of the log export sheet for one log: user, operation, address,
/// city and date.
pub open spec fn log_sheet_row(v: LogVO) -> Seq<Seq<char>> {
    seq![v.user.unwrap()@, v.category.unwrap()@, v.ip.unwrap()@, v.city.unwrap()@, v.date.unwrap()@]
}

/// The answer of a log export, as an HTTP status.
#[derive(Clone, Copy, Debug, PartialEq, Eq)]
pub enum ExportStatus {
    /// 200: the sheet follows.
    Ready,
    /// 404: the query found no log.
    NotFound,
    /// 500: a query failed.
    Failed,
}

impl SystemService {
    /// The action after a write of finishing a recurring plan ahead of time:
    /// the plan's update comes first, the archive entry (`archive`) last;
    /// either failing rolls both back with "提前完成提醒事项失败，请稍后再试",
    /// and the archive entry's rows are the answer once both are committed.
    pub fn advance_finish_write(&self, archive: bool, written: Option<u64>) -> (a: TxAction)
        ensures
            is_write_action(a, written, archive, "提前完成提醒事项失败，请稍后再试"@),
    {
        after_write(written, archive, "提前完成提醒事项失败，请稍后再试")
    }

    /// The answer of a log export from the logs counted (`None`: the count
    /// failed) and whether reading them succeeded.
    pub fn log_export_status(&self, counted: Option<u64>, read: bool) -> (r: ExportStatus)
        ensures
            counted is None ==> r == ExportStatus::Failed,
            counted == Some(0u64) ==> r == ExportStatus::NotFound,
            counted is Some && counted.unwrap() > 0 ==> r == (if read {
                ExportStatus::Ready
            } else {
                ExportStatus::Failed
            }),
    {
        match counted {
            None => ExportStatus::Failed,
            Some(n) => if n == 0 {
                ExportStatus::NotFound
            } else if read {
                ExportStatus::Ready
            } else {
                ExportStatus::Failed
            },
        }
    }

    /// The rows of the log export sheet: the header, then one row per log in
    /// order. Every log must carry each field shown.
    pub fn log_sheet_rows(&self, rows: &Vec<LogVO>) -> (r: Vec<Vec<String>>)
        requires
            forall|i: int| 0 <= i < rows.len() ==> log_row_complete(#[trigger] rows@[i]),
        ensures
            r.len() == rows.len() + 1,
            r@[0]@.map_values(|c: String| c@) == log_sheet_header(),
            forall|i: int| 0 <= i < rows.len() ==> (#[trigger] r@[i + 1])@.map_values(|c: String| c@)
                == log_sheet_row(rows@[i]),
    {
        let mut header: Vec<String> = Vec::new();
        header.push(String::from_str("用户"));
        header.push(String::from_str("操作详情"));
        header.push(String::from_str("IP"));
        header.push(String::from_str("城市"));
        header.push(String::from_str("日期"));
        let mut out: Vec<Vec<String>> = Vec::new();
        out.push(header);
        proof {
            assert(out@[0]@.map_values(|c: String| c@) =~= log_sheet_header());
        }
        let mut i: usize = 0;
        while i < rows.len()
            invariant
                i <= rows.len(),
                out.len() == i + 1,
                forall|k: int| 0 <= k < rows.len() ==> log_row_complete(#[trigger] rows@[k]),
                out@[0]@.map_values(|c: String| c@) == log_sheet_header(),
                forall|k: int| 0 <= k < i ==> (#[trigger] out@[k + 1])@.map_values(|c: String| c@)
                    == log_sheet_row(rows@[k]),
            decreases rows.len() - i,
        {
            let v = &rows[i];
            assert(log_row_complete(rows@[i as int]));
            let mut row: Vec<String> = Vec::new();
            row.push(string_or_empty(&v.user));
            row.push(string_or_empty(&v.category));
            row.push(string_or_empty(&v.ip));
            row.push(string_or_empty(&v.city));
            row.push(string_or_empty(&v.date));
            proof {
                assert(row@.map_values(|c: String| c@) =~= log_sheet_row(rows@[i as int]));
            }
            out.push(row);
            i = i + 1;
        }
        out
    }
}

} // verus!
