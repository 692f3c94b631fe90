use home_cloud::entity::domain::business_database_tables::{Files, NoteBook};
use home_cloud::entity::domain::financial_database_tables::{Abstracts, Monetary, PaymentMeans};
use home_cloud::entity::domain::primary_database_tables::{DbDumpLog, Log, User};
use home_cloud::entity::table::primary_database_tables::{Plan, PlanArchive};
use home_cloud::entity::vo::abstracts::AbstractsVO;
use home_cloud::entity::vo::db_dump_log::DbDumpLogVO;
use home_cloud::entity::vo::files::FilesVO;
use home_cloud::entity::vo::log::LogVO;
use home_cloud::entity::vo::monetary::MonetaryVO;
use home_cloud::entity::vo::notebook::NoteBookVO;
use home_cloud::entity::vo::payment_means::PaymentMeansVO;
use home_cloud::entity::vo::plan::PlanVO;
use home_cloud::entity::vo::plan_archive::PlanArchiveVO;
use home_cloud::entity::vo::user::UserVO;
use home_cloud::entity::vo::RespVO;
use home_cloud::error::Error;
use home_cloud::util;

#[test]
fn response_of_a_success() {
    let r: RespVO<u64> = RespVO::from_result(&Ok(7));
    assert_eq!(r.code, Some(util::CODE_SUCCESS));
    assert_eq!(r.msg, Some("操作成功".to_string()));
    assert_eq!(r.data, Some(7));
    let r: RespVO<String> = RespVO::from(&"x".to_string());
    assert_eq!(r.data, Some("x".to_string()));
}

#[test]
fn response_masks_internal_errors() {
    let r: RespVO<u64> = RespVO::from_result(&Err(Error::with_code("db password wrong", util::UNKNOWN_ERROR)));
    assert_eq!(r.code, Some(util::UNKNOWN_ERROR));
    assert_eq!(r.msg, Some("处理失败，请稍后再试".to_string()));
    assert!(r.data.is_none());
    let r: RespVO<u64> = RespVO::from_result(&Err(Error::with_code("账号和密码不能为空!", util::NOT_PARAMETER_CODE)));
    assert_eq!(r.code, Some(util::NOT_PARAMETER_CODE));
    assert_eq!(r.msg, Some("账号和密码不能为空!".to_string()));
}

#[test]
fn response_of_an_error() {
    let r: RespVO<u64> = RespVO::from_error(99, &Error::from_message("boom"));
    assert_eq!(r.code, Some(99));
    assert_eq!(r.msg, Some("boom".to_string()));
    let r: RespVO<u64> = RespVO::from_error_info(98, "info");
    assert_eq!(r.code, Some(98));
    assert_eq!(r.msg, Some("info".to_string()));
    assert!(r.data.is_none());
}

#[test]
fn errors_carry_messages_and_codes() {
    assert_eq!(Error::from_message("m").to_string(), "m");
    match Error::from_code(util::TOKEN_ERROR_CODE) {
        Error::E(m, c) => {
            assert!(m.is_empty());
            assert_eq!(c, util::TOKEN_ERROR_CODE);
        }
    }
}

#[test]
fn user_view_hides_password() {
    let u = User {
        account: Some("a".to_string()),
        name: None,
        password: Some("secret".to_string()),
        sex: None,
        qq: None,
        email: None,
        phone: None,
        birthday: None,
        hometown: None,
        autograph: None,
        logo: None,
        background: Some(3),
        organize_id: Some(1),
        state: Some(1),
        create_time: None,
        update_time: None,
    };
    let v = UserVO::from(u);
    assert!(v.password.is_none());
    assert!(v.background_url.is_none());
    assert_eq!(v.background, Some(3));
}

#[test]
fn table_views_copy_fields() {
    let f = FilesVO::from(Files {
        id: Some(1),
        uid: Some("u".to_string()),
        file_name: Some("n".to_string()),
        file_url: Some("/x".to_string()),
        file_type: Some("t".to_string()),
        organize: Some(2),
        source: Some("s".to_string()),
        status: Some(2),
        create_time: None,
        update_time: None,
    });
    assert_eq!(f.file_url, Some("/x".to_string()));
    let b = NoteBookVO::from(NoteBook {
        id: Some(1),
        name: Some("n".to_string()),
        organize: None,
        source: None,
        status: Some(2),
        descript: None,
    });
    assert!(b.notes_count.is_none());
    let l = LogVO::from(Log {
        id: Some(1),
        organize: Some(1),
        user: Some("u".to_string()),
        category: Some("OX001".to_string()),
        ip: None,
        city: None,
        date: None,
    });
    assert_eq!(l.category, Some("OX001".to_string()));
    let a = AbstractsVO::from(Abstracts { id: Some(1), flag: Some("1".to_string()), tag: Some("t".to_string()) });
    assert_eq!(a.tag, Some("t".to_string()));
    let m = MonetaryVO::from(Monetary {
        id: Some(1),
        name: Some("yuan".to_string()),
        abbreviate: Some("CNY".to_string()),
        symbol: Some("¥".to_string()),
    });
    assert_eq!(m.symbol, Some("¥".to_string()));
    let p = PaymentMeansVO::from(PaymentMeans { id: Some(2), name: Some("cash".to_string()) });
    assert_eq!(p.name, Some("cash".to_string()));
    let d = DbDumpLogVO::from(DbDumpLog {
        id: Some(1),
        url: Some("u".to_string()),
        archive_date: Some("2024-01-01".to_string()),
        execute_data: None,
    });
    assert_eq!(d.archive_date, Some("2024-01-01".to_string()));
}

#[test]
fn plan_views() {
    let p = PlanVO::from(Plan {
        id: Some(1),
        standard_time: Some("s".to_string()),
        cycle: Some(2),
        unit: Some(1),
        title: None,
        content: None,
        notice_user: None,
        next_exec_time: Some("n".to_string()),
        check_up: None,
        organize: Some(1),
        user: None,
        display: Some(1),
        create_time: None,
        update_time: None,
    });
    assert_eq!(p.next_exec_time, Some("n".to_string()));
    let a = PlanArchiveVO::from(PlanArchive {
        id: Some(4),
        status: Some(3),
        title: None,
        content: None,
        notice_user: None,
        archive_time: Some("t".to_string()),
        organize: None,
        user: None,
        display: None,
        create_time: None,
        update_time: None,
    });
    assert!(a.open_id.is_none() && a.user_name.is_none() && a.user_mail.is_none());
    assert_eq!(a.status, Some(3));
}
