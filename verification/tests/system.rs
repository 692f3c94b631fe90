use home_cloud::entity::domain::primary_database_tables::User;
use home_cloud::entity::dto::plan::PlanDTO;
use home_cloud::entity::dto::plan_archive::PlanArchiveDTO;
use home_cloud::entity::dto::sign_in::SignInDTO;
use home_cloud::entity::dto::user::UserDTO;
use home_cloud::entity::table::primary_database_tables::{Plan, PlanArchive};
use home_cloud::entity::vo::plan_archive::PlanArchiveVO;
use home_cloud::entity::vo::total_pre_6_month::TotalPre6MonthVO;
use home_cloud::entity::vo::total_table::TotalTable;
use home_cloud::entity::vo::user_context::UserContext;
use home_cloud::error::Error;
use home_cloud::service::system_service::{PlanFinish, SystemService};
use home_cloud::service::user_service::UserService;
use home_cloud::util;
use home_cloud::util::date_time::{Day, DayTime, DateUtils};

fn code_of(e: &Error) -> (String, i32) {
    match e {
        Error::E(m, c) => (m.clone(), *c),
    }
}

fn archive_row(day: u64, title: &str) -> PlanArchiveVO {
    PlanArchiveVO {
        id: Some(day),
        status: Some(1),
        title: Some(title.to_string()),
        content: Some("c".to_string()),
        notice_user: None,
        open_id: None,
        user_name: None,
        user_mail: None,
        archive_time: Some("2023-02-01".to_string()),
        organize: Some(1),
        user: Some("u".to_string()),
        display: Some(1),
        create_time: None,
        update_time: None,
    }
}

fn stored_user(state: Option<u32>, password: Option<&str>) -> User {
    User {
        account: Some("bob".to_string()),
        name: Some("Bob".to_string()),
        password: password.map(|p| p.to_string()),
        sex: None,
        qq: None,
        email: Some("b@x".to_string()),
        phone: Some("1".to_string()),
        birthday: None,
        hometown: None,
        autograph: None,
        logo: None,
        background: Some(5),
        organize_id: Some(9),
        state,
        create_time: Some("2020-01-01 00:00:00".to_string()),
        update_time: None,
    }
}

fn context() -> Option<UserContext> {
    Some(UserContext {
        account: "bob".to_string(),
        name: "Bob".to_string(),
        organize: 9,
        ip: "1.1.1.1".to_string(),
        city: "x".to_string(),
        leeway: 3600,
    })
}

fn plan_request(time: &str, cycle: u32, unit: u32) -> PlanDTO {
    PlanDTO {
        id: Some(5),
        standard_time: Some(time.to_string()),
        cycle: Some(cycle),
        unit: Some(unit),
        title: Some("t".to_string()),
        content: Some("c".to_string()),
        next_exec_time: None,
        organize: None,
        user: None,
        display: Some(1),
        create_time: None,
        update_time: None,
        token: None,
    }
}

fn stored_plan(cycle: u32, unit: u32, next: Option<&str>) -> Plan {
    Plan {
        id: Some(5),
        standard_time: Some("2024-01-31 08:30:00".to_string()),
        cycle: Some(cycle),
        unit: Some(unit),
        title: Some("t".to_string()),
        content: Some("c".to_string()),
        notice_user: None,
        next_exec_time: next.map(|n| n.to_string()),
        check_up: None,
        organize: Some(9),
        user: Some("bob".to_string()),
        display: Some(1),
        create_time: Some("c".to_string()),
        update_time: None,
    }
}

#[test]
fn plan_grid_of_february_2023() {
    let s = SystemService {};
    let rows = vec![archive_row(1, "a"), archive_row(14, "b"), archive_row(1, "c")];
    let cells = s.plan_grid("2023-02", rows).unwrap();
    // 2023-02-01 is a Wednesday: three blank cells, 28 days, whole weeks.
    assert_eq!(cells.len(), 35);
    assert_eq!(cells.len() % 7, 0);
    assert_eq!(cells[0].flag, 0);
    assert_eq!(cells[2].flag, 0);
    assert_eq!(cells[3].flag, 1);
    assert_eq!(cells[3].number, 1);
    let first = cells[3].value.as_ref().unwrap();
    assert_eq!(first.len(), 2);
    assert_eq!(first[0].title, Some("a".to_string()));
    assert_eq!(first[1].title, Some("c".to_string()));
    assert_eq!(cells[16].number, 14);
    assert_eq!(cells[16].value.as_ref().unwrap().len(), 1);
    assert!(cells[4].value.is_none());
    assert_eq!(cells[30].number, 28);
    assert_eq!(cells[31].flag, 0);
    for (i, c) in cells.iter().enumerate() {
        if c.flag == 1 {
            assert_eq!(c.number as usize, i - 2);
        }
    }
}

#[test]
fn plan_grid_refuses_bad_month() {
    let s = SystemService {};
    let e = s.plan_grid("2023-13", vec![]).unwrap_err();
    assert_eq!(code_of(&e), ("查询时间格式有误!".to_string(), util::NOT_PARAMETER_CODE));
}

#[test]
fn session_choices() {
    assert_eq!(SystemService::session_leeway("desktop"), 604800);
    assert_eq!(SystemService::session_leeway("browser"), 3600);
    assert!(SystemService::is_local_address("127.0.0.1"));
    assert!(SystemService::is_local_address("localhost"));
    assert!(!SystemService::is_local_address("10.0.0.1"));
    assert_eq!(SystemService::session_city("localhost", None), "局域网地址");
    assert_eq!(SystemService::session_city("8.8.8.8", Some("Mountain View".to_string())), "Mountain View");
    assert_eq!(SystemService::session_key("abc"), "user_context:abc");
}

#[test]
fn generate_token_grants_a_session() {
    let s = SystemService {};
    let user = stored_user(Some(1), Some("hash"));
    let g = s
        .generate_token(
            &user,
            "desktop",
            "1.2.3.4".to_string(),
            "Kunming".to_string(),
            Some(Some("/warehouse/wallpaper/x.png".to_string())),
            None,
            None,
            Some("tok".to_string()),
            true,
        )
        .unwrap();
    assert_eq!(g.leeway, 604800);
    assert_eq!(g.key, "user_context:tok");
    assert_eq!(g.context.account, "bob");
    assert_eq!(g.context.organize, 9);
    assert_eq!(g.context.city, "Kunming");
    assert_eq!(g.sign_in.access_token, "tok");
    let shown = g.sign_in.user.unwrap();
    assert!(shown.password.is_none());
    assert_eq!(shown.background_url, Some("/warehouse/wallpaper/x.png".to_string()));
    let e = s
        .generate_token(&user, "web", "1".to_string(), "c".to_string(), None, None, None, None, true)
        .unwrap_err();
    assert_eq!(code_of(&e), ("登录异常".to_string(), util::CODE_FAIL));
}

#[test]
fn login_checks() {
    let s = SystemService {};
    let arg = SignInDTO { account: Some("bob".to_string()), password: Some("pw".to_string()) };
    let empty = SignInDTO { account: Some("bob".to_string()), password: Some(String::new()) };
    assert_eq!(
        code_of(&s.login(&empty, &None, true).unwrap_err()),
        ("账号和密码不能为空!".to_string(), util::NOT_PARAMETER_CODE)
    );
    assert_eq!(
        code_of(&s.login(&arg, &None, true).unwrap_err()),
        ("账号:bob 不存在!".to_string(), util::NOT_EXIST_CODE)
    );
    assert_eq!(
        code_of(&s.login(&arg, &Some(stored_user(Some(0), Some("h"))), true).unwrap_err()).0,
        "账户被禁用!"
    );
    assert_eq!(
        code_of(&s.login(&arg, &Some(stored_user(Some(1), None)), true).unwrap_err()),
        ("错误的用户数据，密码为空!".to_string(), util::NOT_PARAMETER_CODE)
    );
    assert_eq!(
        code_of(&s.login(&arg, &Some(stored_user(Some(1), Some("h"))), false).unwrap_err()).0,
        "账户或密码不正确!"
    );
    let u = s.login(&arg, &Some(stored_user(Some(1), Some("h"))), true).unwrap();
    assert_eq!(u.account, Some("bob".to_string()));
}

#[test]
fn locked_account_cannot_sign_in() {
    let s = SystemService {};
    let arg = SignInDTO { account: Some("bob".to_string()), password: Some("pw".to_string()) };
    assert_eq!(
        code_of(&s.login(&arg, &Some(stored_user(Some(2), Some("h"))), true).unwrap_err()),
        ("账户被禁用!".to_string(), util::CODE_FAIL)
    );
    let u = UserService {};
    assert_eq!(
        u.login(&arg, &Some(stored_user(Some(2), Some("h"))), true).unwrap_err().to_string(),
        "账户被禁用!"
    );
}

fn user_request() -> UserDTO {
    UserDTO {
        account: Some("carol".to_string()),
        name: Some("Carol".to_string()),
        password: None,
        sex: Some("f".to_string()),
        qq: None,
        email: Some("c@x".to_string()),
        phone: Some("2".to_string()),
        birthday: None,
        hometown: None,
        autograph: None,
        logo: None,
        background: None,
        organize_id: Some(9),
        state: Some(1),
        token: Some("t".to_string()),
    }
}

#[test]
fn user_add_and_edit() {
    let s = SystemService {};
    let arg = user_request();
    assert_eq!(SystemService::user_add_password(&arg), "123456");
    let enc = |p: String| format!("enc:{}", p);
    let u = s.user_add(&arg, true, false, enc, "now".to_string()).unwrap();
    assert_eq!(u.password, Some("enc:123456".to_string()));
    assert_eq!(u.state, Some(1));
    assert_eq!(u.create_time, Some("now".to_string()));
    let e = s.user_add(&arg, true, true, enc, "now".to_string()).unwrap_err();
    assert_eq!(code_of(&e), ("账户:carol已存在!".to_string(), util::CODE_FAIL));
    let e = s.user_add(&arg, false, false, enc, "now".to_string()).unwrap_err();
    assert_eq!(code_of(&e).1, util::TOKEN_ERROR_CODE);
    let mut no_phone = user_request();
    no_phone.phone = None;
    let e = s.user_add(&no_phone, true, false, enc, "now".to_string()).unwrap_err();
    assert_eq!(code_of(&e).1, util::NOT_PARAMETER_CODE);

    let exist = Some(stored_user(Some(1), Some("old")));
    let edited = s.user_edit(&arg, true, &exist, enc, "later".to_string()).unwrap();
    assert_eq!(edited.account, Some("bob".to_string()));
    assert_eq!(edited.password, Some("old".to_string()));
    assert_eq!(edited.name, Some("Carol".to_string()));
    assert_eq!(edited.create_time, Some("2020-01-01 00:00:00".to_string()));
    let e = s.user_edit(&arg, true, &None, enc, "later".to_string()).unwrap_err();
    assert_eq!(code_of(&e), ("账号:carol 不存在!".to_string(), util::NOT_EXIST_CODE));

    let mut pw = user_request();
    pw.password = Some("new".to_string());
    let changed = s.user_update_password(&pw, true, &exist, enc, "later".to_string()).unwrap();
    assert_eq!(changed.password, Some("enc:new".to_string()));
    let edited_pw = s.user_edit(&pw, true, &exist, enc, "later".to_string()).unwrap();
    assert_eq!(edited_pw.password, Some("enc:new".to_string()));
    assert!(changed.name.is_none());
    let e = s.user_update_password(&arg, true, &exist, enc, "later".to_string()).unwrap_err();
    assert_eq!(code_of(&e), ("密码不能为空!".to_string(), util::NOT_PARAMETER_CODE));
    assert!(s.user_remove("").is_err());
    assert!(s.user_remove("bob").is_ok());
    let vo = s.user_detail(&arg, &exist).unwrap();
    assert!(vo.password.is_none());
    assert_eq!(code_of(&s.user_get_info_by_token(&None, &exist).unwrap_err()).1, util::NOT_AUTHORIZE_CODE);
}

#[test]
fn pre6_logs_mean_per_day() {
    let s = SystemService {};
    let today = Day { year: 2024, month: 5, day: 10 };
    let rows = vec![TotalPre6MonthVO { total_month: Some("2024-04".to_string()), count: Some(3) }];
    let t = s.compute_pre6_logs("2024-05-01", today, 25, rows).unwrap();
    assert_eq!(t.avg, Some(2));
    assert_eq!(t.count, Some(25));
    let t = s.compute_pre6_logs("2024-02-01", today, 58, vec![]).unwrap();
    assert_eq!(t.avg, Some(2));
    let e = s.compute_pre6_logs("May", today, 1, vec![]).unwrap_err();
    assert_eq!(code_of(&e), ("统计月份不能为空!".to_string(), util::NOT_PARAMETER_CODE));
}

#[test]
fn object_rows_fill_zeros() {
    let s = SystemService {};
    let r = s.compute_object_rows(None, None, None);
    assert!(r.word_cloud.is_empty());
    let names: Vec<String> = r.rose_data.iter().map(|t| t.name.clone().unwrap()).collect();
    assert_eq!(names, vec!["计划", "文件", "图片", "笔记簿", "笔记", "动态"]);
    assert!(r.rose_data.iter().all(|t| t.value == Some(0)));
    let plans = vec![TotalTable { name: Some("计划".to_string()), value: Some(4) }];
    let items = vec![TotalTable { name: Some("文件".to_string()), value: Some(2) }];
    let r = s.compute_object_rows(Some(vec![]), Some(plans), Some(items));
    assert_eq!(r.rose_data.len(), 2);
    assert_eq!(r.rose_data[0].value, Some(4));
    assert_eq!(r.rose_data[1].value, Some(2));
}

#[test]
fn plan_archive_edit() {
    let s = SystemService {};
    let arg = PlanArchiveDTO {
        id: Some(3),
        title: None,
        content: None,
        notice_user: None,
        status: Some(3),
        archive_time: None,
        organize: None,
        user: None,
        display: Some(0),
        create_time: None,
        update_time: None,
        token: None,
    };
    let exist = PlanArchive {
        id: Some(3),
        status: Some(1),
        title: Some("t".to_string()),
        content: None,
        notice_user: None,
        archive_time: None,
        organize: Some(9),
        user: None,
        display: Some(1),
        create_time: None,
        update_time: None,
    };
    let r = s.edit_plan_archive(&arg, true, &Some(exist)).unwrap();
    assert_eq!(r.status, Some(3));
    assert_eq!(r.display, Some(0));
    assert_eq!(r.title, Some("t".to_string()));
    let e = s.edit_plan_archive(&arg, true, &None).unwrap_err();
    assert_eq!(code_of(&e), ("id=3 的归档提醒事项不存在!".to_string(), util::NOT_EXIST_CODE));
}

#[test]
fn next_runs_by_cycle() {
    let t = DayTime { date: Day { year: 2024, month: 1, day: 31 }, hour: 8, minute: 30, second: 0 };
    let d = DateUtils::plan_data_compute(t, 2, 1).unwrap();
    assert_eq!((d.date.year, d.date.month, d.date.day), (2024, 2, 1));
    let w = DateUtils::plan_data_compute(t, 3, 2).unwrap();
    assert_eq!((w.date.year, w.date.month, w.date.day), (2024, 2, 14));
    let m = DateUtils::plan_data_compute(t, 4, 1).unwrap();
    assert_eq!((m.date.year, m.date.month, m.date.day), (2024, 2, 29));
    let y = DateUtils::plan_data_compute(t, 5, 1).unwrap();
    assert_eq!((y.date.year, y.date.month, y.date.day), (2025, 1, 31));
    assert_eq!(y.hour, 8);
    let once = DateUtils::plan_data_compute(t, 1, 9).unwrap();
    assert_eq!(once.date.day, 31);
    assert!(DateUtils::plan_data_compute(t, 6, 1).is_none());
}

#[test]
fn add_plan_records_next_run() {
    let s = SystemService {};
    let p = s.add_plan(&plan_request("2024-01-31 08:30:00", 4, 1), true, &context(), "now".to_string()).unwrap();
    assert_eq!(p.next_exec_time, Some("2024-02-29 08:30:00".to_string()));
    assert_eq!(p.organize, Some(9));
    assert_eq!(p.user, Some("bob".to_string()));
    let once = s.add_plan(&plan_request("2024-01-31 08:30:00", 1, 1), true, &context(), "now".to_string()).unwrap();
    assert!(once.next_exec_time.is_none());
    let e = s.add_plan(&plan_request("31/01/2024", 2, 1), true, &context(), "now".to_string()).unwrap_err();
    assert_eq!(code_of(&e).0, "创建提醒事项失败");
    let e = s.add_plan(&plan_request("2024-01-31 08:30:00", 9, 1), true, &context(), "now".to_string()).unwrap_err();
    assert_eq!(code_of(&e).0, "无效的日期循环周期");
    let e = s.add_plan(&plan_request("2024-01-31 08:30:00", 2, 1), true, &None, "now".to_string()).unwrap_err();
    assert_eq!(code_of(&e).1, util::NOT_AUTHORIZE_CODE);
    let mut blank = plan_request("2024-01-31 08:30:00", 2, 1);
    blank.content = Some(String::new());
    let e = s.add_plan(&blank, true, &context(), "now".to_string()).unwrap_err();
    assert_eq!(code_of(&e).1, util::NOT_PARAMETER_CODE);
}

#[test]
fn edit_plan_reckons_anew() {
    let s = SystemService {};
    let exist = Some(stored_plan(2, 1, None));
    let p = s
        .edit_plan(&plan_request("2024-12-31 23:00:00", 2, 1), true, &context(), &exist, "now".to_string())
        .unwrap();
    assert_eq!(p.next_exec_time, Some("2025-01-01 23:00:00".to_string()));
    assert_eq!(p.update_time, Some("now".to_string()));
    let e = s
        .edit_plan(&plan_request("2024-12-31 23:00:00", 2, 1), true, &context(), &None, "now".to_string())
        .unwrap_err();
    assert_eq!(code_of(&e), ("id=5 的提醒事项不存在!".to_string(), util::NOT_EXIST_CODE));
}

#[test]
fn finishing_plans_ahead() {
    let s = SystemService {};
    let arg = plan_request("x", 1, 1);
    match s.advance_finish_plan(&arg, true, &context(), &Some(stored_plan(1, 1, None)), "now".to_string()).unwrap() {
        PlanFinish::OneOff { archive: a, plan_id, organize, answer } => {
            assert_eq!((plan_id, organize), (5, 9));
            assert_eq!(answer, 0);
            assert_eq!(a.status, Some(3));
            assert_eq!(a.archive_time, Some("2024-01-31 08:30:00".to_string()));
        }
        PlanFinish::Recurring(_, _) => panic!("a one-off plan"),
    }
    let exist = Some(stored_plan(4, 1, Some("2024-02-29 08:30:00")));
    match s.advance_finish_plan(&arg, true, &context(), &exist, "now".to_string()).unwrap() {
        PlanFinish::Recurring(p, a) => {
            assert_eq!(p.standard_time, Some("2024-02-29 08:30:00".to_string()));
            assert_eq!(p.next_exec_time, Some("2024-03-29 08:30:00".to_string()));
            assert_eq!(a.archive_time, Some("2024-01-31 08:30:00".to_string()));
            assert_eq!(a.create_time, Some("now".to_string()));
        }
        PlanFinish::OneOff { .. } => panic!("a recurring plan"),
    }
}

#[test]
fn plan_deletions_and_own_organization() {
    let s = SystemService {};
    assert_eq!(s.delete_plan(5, &context()).unwrap(), (5, 9));
    assert_eq!(code_of(&s.delete_plan(5, &None).unwrap_err()).1, util::NOT_AUTHORIZE_CODE);
    assert_eq!(s.delete_plan_archive(6, &context()).unwrap(), 6);
    assert_eq!(s.user_get_own_organize(&context()).unwrap(), "bob");
}

#[test]
fn plan_times_are_read_and_written_padded() {
    let s = SystemService {};
    let p = s.add_plan(&plan_request("0007-01-02 03:04:05", 2, 1), true, &context(), "now".to_string()).unwrap();
    assert_eq!(p.next_exec_time, Some("0007-01-03 03:04:05".to_string()));
    let e = s.add_plan(&plan_request("2024-02-28", 2, 1), true, &context(), "now".to_string()).unwrap_err();
    assert_eq!(code_of(&e).0, "创建提醒事项失败");
    let e = s.add_plan(&plan_request("2024-02-30 00:00:00", 2, 1), true, &context(), "now".to_string()).unwrap_err();
    assert_eq!(code_of(&e).0, "创建提醒事项失败");
}

#[test]
fn plan_grid_starts_on_the_weekday_of_the_first() {
    let s = SystemService {};
    // 2024-03-01 is a Friday: five empty cells come before it.
    let cells = s.plan_grid("2024-03", vec![]).unwrap();
    assert_eq!(cells.len() % 7, 0);
    let first = cells.iter().position(|c| c.flag == 1).unwrap();
    assert_eq!(first, 5);
    assert_eq!(cells[first].number, 1);
    assert_eq!(cells.len(), 42);
}
