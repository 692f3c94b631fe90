use home_cloud::entity::vo::log::LogVO;
use home_cloud::entity::vo::user_context::UserContext;
use home_cloud::error::Error;
use home_cloud::service::financial_service::FinancialService;
use home_cloud::service::oss_service::OssService;
use home_cloud::service::system_service::{ExportStatus, SystemService};
use home_cloud::util;
use home_cloud::util::page::{page_of_count, page_organize, page_organize_or, Page};
use home_cloud::util::transaction::{after_write, TxAction};

fn error_of(a: &TxAction) -> (String, i32) {
    match a {
        TxAction::Rollback(Error::E(m, c)) => (m.clone(), *c),
        _ => panic!("no rollback"),
    }
}

#[test]
fn pages_are_cut_from_the_count() {
    let p = Page::page_query(25, Some(2), Some(10));
    assert_eq!((p.total_row, p.total_page, p.page_no, p.page_size), (25, 3, 2, 10));
    assert_eq!(p.offset(), 10);
    let last = Page::page_query(25, Some(9), Some(10));
    assert_eq!((last.page_no, last.offset()), (3, 20));
    let default = Page::page_query(7, None, None);
    assert_eq!((default.total_page, default.page_no, default.page_size, default.offset()), (1, 1, 10, 0));
    let zero = Page::page_query(30, Some(0), Some(0));
    assert_eq!((zero.page_no, zero.page_size, zero.total_page), (1, 10, 3));
    let whole = Page::page_query(u64::MAX, Some(u64::MAX), Some(1));
    assert_eq!(whole.total_page, u64::MAX);
}

#[test]
fn page_counts_decide_the_answer() {
    match page_of_count(None, Some(1), Some(10), "分页查询异常") {
        Err(Error::E(m, c)) => assert_eq!((m.as_str(), c), ("分页查询异常", util::CODE_FAIL)),
        _ => panic!("count failure accepted"),
    }
    match page_of_count(Some(0), Some(1), Some(10), "分页查询异常") {
        Err(Error::E(m, c)) => assert_eq!((m.as_str(), c), ("未查询到符合条件的数据", util::NOT_EXIST_CODE)),
        _ => panic!("empty count accepted"),
    }
    let p = page_of_count(Some(11), Some(2), Some(5), "x").unwrap();
    assert_eq!((p.page_no, p.offset()), (2, 5));
}

#[test]
fn pages_read_the_callers_organization() {
    let c = Some(UserContext {
        account: "a".to_string(),
        name: "n".to_string(),
        organize: 42,
        ip: "i".to_string(),
        city: "c".to_string(),
        leeway: 1,
    });
    assert_eq!(page_organize(&c).unwrap(), 42);
    match page_organize(&None) {
        Err(Error::E(m, c)) => assert_eq!((m.as_str(), c), ("", util::NOT_AUTHORIZE_CODE)),
        _ => panic!("anonymous page accepted"),
    }
}

#[test]
fn writes_commit_only_when_all_succeed() {
    assert!(matches!(after_write(Some(1), false, "f"), TxAction::Next));
    assert!(matches!(after_write(Some(3), true, "f"), TxAction::Commit(3)));
    assert_eq!(error_of(&after_write(None, false, "f")), ("f".to_string(), util::CODE_FAIL));
}

#[test]
fn finishing_a_plan_ahead_rolls_back_on_a_failed_write() {
    let s = SystemService {};
    assert!(matches!(s.advance_finish_write(false, Some(1)), TxAction::Next));
    assert!(matches!(s.advance_finish_write(true, Some(1)), TxAction::Commit(1)));
    assert_eq!(
        error_of(&s.advance_finish_write(false, None)),
        ("提前完成提醒事项失败，请稍后再试".to_string(), util::CODE_FAIL)
    );
    assert_eq!(
        error_of(&s.advance_finish_write(true, None)),
        ("提前完成提醒事项失败，请稍后再试".to_string(), util::CODE_FAIL)
    );
}

#[test]
fn adding_a_journal_rolls_back_on_a_failed_save() {
    let f = FinancialService {};
    assert!(matches!(f.add_journal_write(false, Some(1)), TxAction::Next));
    assert!(matches!(f.add_journal_write(true, Some(4)), TxAction::Commit(4)));
    assert_eq!(error_of(&f.add_journal_write(false, None)), ("保存流水失败".to_string(), util::CODE_FAIL));
    assert_eq!(error_of(&f.add_journal_write(true, None)), ("保存流水失败".to_string(), util::CODE_FAIL));
}

#[test]
fn log_export_status_and_rows() {
    let s = SystemService {};
    assert_eq!(s.log_export_status(None, true), ExportStatus::Failed);
    assert_eq!(s.log_export_status(Some(0), true), ExportStatus::NotFound);
    assert_eq!(s.log_export_status(Some(3), false), ExportStatus::Failed);
    assert_eq!(s.log_export_status(Some(3), true), ExportStatus::Ready);
    let log = LogVO {
        id: Some(1),
        user: Some("bob".to_string()),
        category: Some("OX001".to_string()),
        ip: Some("127.0.0.1".to_string()),
        city: Some("c".to_string()),
        date: Some("2024-01-01 00:00:00".to_string()),
    };
    let rows = s.log_sheet_rows(&vec![log]);
    assert_eq!(rows.len(), 2);
    assert_eq!(rows[0], vec!["用户", "操作详情", "IP", "城市", "日期"]);
    assert_eq!(rows[1], vec!["bob", "OX001", "127.0.0.1", "c", "2024-01-01 00:00:00"]);
    assert_eq!(s.log_sheet_rows(&vec![]).len(), 1);
}

#[test]
fn base64_pictures_get_fresh_png_names() {
    let a = OssService::fresh_png_name("20240101");
    assert!(a.starts_with("20240101"));
    assert!(a.ends_with(".png"));
    assert!(a.len() > "20240101.png".len());
}

#[test]
fn a_named_organization_scopes_the_page() {
    assert_eq!(page_organize_or(Some(3), &None).unwrap(), 3);
    match page_organize_or(None, &None) {
        Err(Error::E(m, c)) => assert_eq!((m.as_str(), c), ("", util::NOT_AUTHORIZE_CODE)),
        _ => panic!("anonymous page accepted"),
    }
}
