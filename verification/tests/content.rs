use home_cloud::entity::domain::business_database_tables::{Memo, News, Notes};
use home_cloud::entity::dto::memo::MemoDTO;
use home_cloud::entity::dto::news::NewsDTO;
use home_cloud::entity::dto::notebook::NoteBookDTO;
use home_cloud::entity::dto::notes::NotesDTO;
use home_cloud::entity::vo::notes::NotesVO;
use home_cloud::error::Error;
use home_cloud::service::content_service::{missing_item, ContentService};
use home_cloud::util;
use home_cloud::util::date_time::Day;

fn code_of(e: &Error) -> (String, i32) {
    match e {
        Error::E(m, c) => (m.clone(), *c),
    }
}

fn news(topic: Option<&str>) -> NewsDTO {
    NewsDTO {
        id: Some(1),
        topic: topic.map(|t| t.to_string()),
        label: Some("l".to_string()),
        content: Some("body".to_string()),
        organize: None,
        source: None,
        create_time: None,
        update_time: None,
    }
}

#[test]
fn news_records() {
    let n = ContentService::add_news(&news(Some("t")), 3, "eve".to_string(), "now".to_string()).unwrap();
    assert_eq!(n.organize, Some(3));
    assert_eq!(n.source, Some("eve".to_string()));
    assert!(n.id.is_none());
    let e = ContentService::add_news(&news(Some("")), 3, "eve".to_string(), "now".to_string()).unwrap_err();
    assert_eq!(code_of(&e), ("动态标题和内容不能为空!".to_string(), util::NOT_PARAMETER_CODE));
    let exist = News {
        id: Some(1),
        topic: None,
        label: None,
        abstracts: None,
        content: None,
        organize: Some(8),
        source: None,
        create_time: None,
        update_time: None,
    };
    let edited = ContentService::edit_news(&news(Some("t2")), &exist, "eve".to_string()).unwrap();
    assert_eq!(edited.organize, Some(8));
    assert_eq!(edited.topic, Some("t2".to_string()));
}

#[test]
fn memo_records() {
    let arg = MemoDTO {
        id: Some(2),
        organize: None,
        source: None,
        title: Some("m".to_string()),
        content: Some("c".to_string()),
        create_time: None,
        update_time: None,
        token: None,
    };
    let m = ContentService::add_memo(&arg, 1, "eve".to_string(), "now".to_string()).unwrap();
    assert_eq!(m.title, Some("m".to_string()));
    assert_eq!(m.create_time, Some("now".to_string()));
    let exist = Memo {
        id: Some(2),
        organize: Some(4),
        source: None,
        title: None,
        content: None,
        create_time: None,
        update_time: None,
    };
    assert_eq!(ContentService::edit_memo(&arg, &exist, "eve".to_string()).unwrap().organize, Some(4));
}

#[test]
fn notebook_records() {
    let arg = NoteBookDTO {
        id: Some(5),
        name: Some("Ideas".to_string()),
        organize: None,
        source: None,
        status: Some(1),
        descript: None,
    };
    let b = ContentService::add_notebook(&arg, false, 1, "eve".to_string()).unwrap();
    assert_eq!(b.status, Some(2));
    let e = ContentService::add_notebook(&arg, true, 1, "eve".to_string()).unwrap_err();
    assert_eq!(code_of(&e), ("该笔记簿名【Ideas】已存在!".to_string(), util::CODE_FAIL));
    let edited = ContentService::edit_notebook(&arg, false, 1, "eve".to_string()).unwrap();
    assert_eq!(edited.status, Some(1));
}

#[test]
fn notes_records() {
    let arg = NotesDTO {
        id: Some(6),
        notebook_id: Some(5),
        label: None,
        topic: Some("t".to_string()),
        content: Some("c".to_string()),
        source: None,
        create_time: None,
        update_time: None,
    };
    let n = ContentService::add_notes(&arg, "eve".to_string(), "now".to_string()).unwrap();
    assert!(n.id.is_none());
    let e = ContentService::edit_notes(
        &NotesDTO { id: None, ..arg.clone() },
        "eve".to_string(),
    )
    .unwrap_err();
    assert_eq!(code_of(&e), ("便笺标题和内容不能为空!".to_string(), util::NOT_PARAMETER_CODE));
    let stored = Notes {
        id: Some(6),
        notebook_id: Some(5),
        label: None,
        topic: Some("t".to_string()),
        abstracts: Some("a".to_string()),
        content: Some("raw".to_string()),
        source: None,
        create_time: None,
        update_time: None,
    };
    let vo = NotesVO::from(stored, "shown".to_string());
    assert_eq!(vo.content, Some("shown".to_string()));
    assert!(vo.path.is_none());
}

#[test]
fn missing_items() {
    let e = missing_item(12, "动态");
    assert_eq!(code_of(&e), ("id=12 的动态不存在!".to_string(), util::NOT_EXIST_CODE));
}

#[test]
fn news_window_of_a_month() {
    let today = Day { year: 2024, month: 5, day: 9 };
    let w = ContentService::compute_pre6_news("2024-05-20", today).unwrap();
    assert_eq!(w.days, 9);
    assert_eq!(w.start, "2024-05-01 00:00:00");
    assert_eq!(w.end, "2024-05-09 23:59:59");
    let w = ContentService::compute_pre6_news("2023-02-01", today).unwrap();
    assert_eq!(w.days, 28);
    assert_eq!(w.end, "2023-02-28 23:59:59");
    let e = ContentService::compute_pre6_news("", today).unwrap_err();
    assert_eq!(code_of(&e), ("统计月份不能为空!".to_string(), util::NOT_PARAMETER_CODE));
}

#[test]
fn news_mean_is_rounded_up_away_from_zero() {
    let a = ContentService::news_average(10, 3);
    assert_eq!((a.mantissa, a.scale), (334, 2));
    let b = ContentService::news_average(2, 3);
    assert_eq!((b.mantissa, b.scale), (67, 2));
    let c = ContentService::news_average(1, 8);
    assert_eq!((c.mantissa, c.scale), (13, 2));
    let d = ContentService::news_average(10, 4);
    assert_eq!(d.mantissa * 10i128.pow(2 - d.scale), 250);
    let e = ContentService::news_average(10, 5);
    assert_eq!(e.mantissa * 10i128.pow(2 - e.scale), 200);
    let f = ContentService::news_average(0, 31);
    assert_eq!(f.mantissa, 0);
    let g = ContentService::news_average(u64::MAX, 31);
    assert_eq!(g.mantissa * 10i128.pow(2 - g.scale), (u64::MAX as i128 * 100 + 30) / 31);
}

#[test]
fn details_of_items() {
    let n = News {
        id: Some(1),
        topic: Some("t".to_string()),
        label: None,
        abstracts: None,
        content: None,
        organize: Some(1),
        source: None,
        create_time: None,
        update_time: None,
    };
    assert_eq!(ContentService::get_news_detail(1, Some(n)).unwrap().topic, Some("t".to_string()));
    assert_eq!(code_of(&ContentService::get_news_detail(2, None).unwrap_err()).0, "id=2 的动态不存在!");
    assert_eq!(code_of(&ContentService::get_memo_detail(3, None).unwrap_err()).0, "id=3 的便笺不存在!");
    let note = Notes {
        id: Some(6),
        notebook_id: Some(5),
        label: None,
        topic: None,
        abstracts: None,
        content: Some("body".to_string()),
        source: None,
        create_time: None,
        update_time: None,
    };
    assert_eq!(ContentService::get_notes_detail(6, Some(note)).unwrap().content, Some("body".to_string()));
    assert_eq!(code_of(&ContentService::get_notes_detail(7, None).unwrap_err()).0, "id=7 的动态不存在!");
}

#[test]
fn deletions_stay_in_the_organization() {
    let user = Some(home_cloud::entity::vo::jwt::JWTToken {
        account: "eve".to_string(),
        name: "Eve".to_string(),
        organize: 12,
        ip: "i".to_string(),
        city: "c".to_string(),
        exp: 0,
    });
    assert_eq!(ContentService::delete_news(3, &user).unwrap(), (3, 12));
    assert_eq!(ContentService::delete_memo(4, &user).unwrap(), (4, 12));
    assert_eq!(ContentService::delete_notebook(5, &user).unwrap(), (5, 12));
    assert_eq!(ContentService::delete_notes(6, &user).unwrap(), (6, 12));
    let e = ContentService::delete_news(3, &None).unwrap_err();
    assert_eq!(code_of(&e), ("获取用户信息失败，请登录".to_string(), util::NOT_AUTHORIZE_CODE));
    let q = NoteBookDTO { id: None, name: Some("n".to_string()), organize: Some(99), source: None, status: None, descript: None };
    assert_eq!(ContentService::list_notebook(&q, &user).unwrap().organize, Some(12));
    assert!(ContentService::list_notebook(&q, &None).is_err());
}
