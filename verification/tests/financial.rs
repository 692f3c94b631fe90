use home_cloud::entity::domain::financial_database_tables::{GeneralJournal, Journal};
use home_cloud::entity::dto::general_journal::GeneralJournalDTO;
use home_cloud::entity::dto::journal::JournalDTO;
use home_cloud::entity::vo::jwt::JWTToken;
use home_cloud::error::Error;
use home_cloud::service::financial_service::{
    book, kind_of, total, unbook, Balance, Entry, FinancialService, LineRemoval,
};
use home_cloud::util;
use home_cloud::util::date_time::Day;
use home_cloud::util::money::{checked_difference, checked_sum, Amount};

fn amount(mantissa: i128, scale: u32) -> Amount {
    Amount { mantissa, scale }
}

fn line(flag: &str, a: Amount) -> GeneralJournalDTO {
    GeneralJournalDTO {
        id: None,
        journal_id: Some(7),
        flag: Some(flag.to_string()),
        amount: Some(a),
        remarks: Some("lunch".to_string()),
    }
}

fn caller() -> Option<JWTToken> {
    Some(JWTToken {
        account: "alice".to_string(),
        name: "Alice".to_string(),
        organize: 3,
        ip: "10.0.0.1".to_string(),
        city: "Kunming".to_string(),
        exp: 0,
    })
}

fn today() -> Day {
    Day { year: 2024, month: 5, day: 17 }
}

fn journal(income: Amount, outlay: Amount, archive: Day) -> Journal {
    Journal {
        id: Some(7),
        monetary_id: Some(1),
        income: Some(income),
        outlay: Some(outlay),
        means_id: Some(2),
        abstract_id: Some(4),
        total: None,
        remarks: None,
        archive_date: Some(archive),
        organize: Some(3),
        source: Some("alice".to_string()),
        create_time: None,
        update_time: None,
    }
}

fn journal_request(details: Option<Vec<GeneralJournalDTO>>) -> JournalDTO {
    JournalDTO {
        id: Some(7),
        monetary_id: Some(1),
        means_id: Some(2),
        amount_id: Some(4),
        remarks: Some("day".to_string()),
        archive_date: Some(Day { year: 2024, month: 5, day: 2 }),
        details,
    }
}

fn message_and_code(e: &Error) -> (String, i32) {
    match e {
        Error::E(m, c) => (m.clone(), *c),
    }
}

/// The value of an amount in hundredths, for amounts of scale at most 2.
fn cents(a: &Amount) -> i128 {
    a.mantissa * 10i128.pow(2 - a.scale)
}

#[test]
fn kinds_of_flags() {
    assert_eq!(kind_of(&"1".to_string()), 1);
    assert_eq!(kind_of(&"2".to_string()), 2);
    assert_eq!(kind_of(&"3".to_string()), 0);
    assert_eq!(kind_of(&"".to_string()), 0);
    assert_eq!(kind_of(&"12".to_string()), 0);
}

#[test]
fn decimal_sum_is_exact() {
    let s = checked_sum(&amount(150, 2), &amount(25, 1)).unwrap();
    assert_eq!(cents(&s), 400);
    let d = checked_difference(&amount(150, 2), &amount(25, 1)).unwrap();
    assert_eq!(cents(&d), -100);
}

#[test]
fn decimal_sum_overflow_is_none() {
    let max = amount(79228162514264337593543950335, 0);
    assert!(checked_sum(&max, &amount(1, 0)).is_none());
    assert!(checked_difference(&amount(-79228162514264337593543950335, 0), &amount(1, 0)).is_none());
}

#[test]
fn book_income_and_outlay() {
    let b = Balance { income: amount(1000, 2), outlay: amount(300, 2) };
    match book(&b, &"1".to_string(), &amount(250, 2)) {
        Entry::Booked(n) => {
            assert_eq!(cents(&n.income), 1250);
            assert_eq!(cents(&n.outlay), 300);
        }
        _ => panic!("expected a booking"),
    }
    match book(&b, &"2".to_string(), &amount(5, 1)) {
        Entry::Booked(n) => {
            assert_eq!(cents(&n.income), 1000);
            assert_eq!(cents(&n.outlay), 350);
        }
        _ => panic!("expected a booking"),
    }
    assert!(matches!(book(&b, &"x".to_string(), &amount(1, 0)), Entry::UnknownKind));
}

#[test]
fn unbook_undoes_book() {
    let b = Balance { income: amount(1234, 2), outlay: amount(56, 1) };
    for flag in ["1", "2"] {
        let booked = match book(&b, &flag.to_string(), &amount(789, 2)) {
            Entry::Booked(n) => n,
            _ => panic!("expected a booking"),
        };
        let back = match unbook(&booked, &flag.to_string(), &amount(789, 2)) {
            Entry::Booked(n) => n,
            _ => panic!("expected a booking"),
        };
        assert_eq!(cents(&back.income), cents(&b.income));
        assert_eq!(cents(&back.outlay), cents(&b.outlay));
    }
}

#[test]
fn total_is_income_plus_outlay() {
    let b = Balance { income: amount(1050, 2), outlay: amount(3, 0) };
    let t = total(&b).unwrap();
    assert_eq!(cents(&t), 1350);
}

#[test]
fn tally_sums_by_kind() {
    let s = FinancialService {};
    let details = vec![line("1", amount(100, 2)), line("2", amount(250, 2)), line("1", amount(5, 1))];
    match s.tally_lines(&details) {
        Entry::Booked(b) => {
            assert_eq!(cents(&b.income), 150);
            assert_eq!(cents(&b.outlay), 250);
        }
        _ => panic!("expected sums"),
    }
    let bad = vec![line("1", amount(100, 2)), line("9", amount(1, 0))];
    assert!(matches!(s.tally_lines(&bad), Entry::UnknownKind));
    assert!(matches!(s.tally_lines(&vec![]), Entry::Booked(_)));
}

#[test]
fn add_journal_builds_totals() {
    let s = FinancialService {};
    let arg = journal_request(Some(vec![line("1", amount(1000, 2)), line("2", amount(275, 2))]));
    let j = s.add_journal(&arg, &caller(), "2024-05-17 10:00:00".to_string()).unwrap().unwrap();
    assert_eq!(cents(&j.income.unwrap()), 1000);
    assert_eq!(cents(&j.outlay.unwrap()), 275);
    assert_eq!(cents(&j.total.unwrap()), 1275);
    assert_eq!(j.abstract_id, Some(4));
    assert_eq!(j.organize, Some(3));
    assert_eq!(j.source, Some("alice".to_string()));
    assert_eq!(j.create_time, Some("2024-05-17 10:00:00".to_string()));
    assert_eq!(j.id, None);
    assert!(j.update_time.is_none());
}

#[test]
fn add_journal_refusals() {
    let s = FinancialService {};
    let missing = journal_request(None);
    let e = s.add_journal(&missing, &caller(), "now".to_string()).unwrap().unwrap_err();
    assert_eq!(
        message_and_code(&e),
        ("支付方式、摘要、交易货币、交易日期和流水明细不能为空!".to_string(), util::NOT_PARAMETER_CODE)
    );
    let arg = journal_request(Some(vec![line("1", amount(1, 0))]));
    let e = s.add_journal(&arg, &None, "now".to_string()).unwrap().unwrap_err();
    assert_eq!(message_and_code(&e), ("获取用户信息失败，请登录".to_string(), util::NOT_AUTHORIZE_CODE));
    let unknown = journal_request(Some(vec![line("1", amount(1, 0)), line("3", amount(1, 0))]));
    let e = s.add_journal(&unknown, &caller(), "now".to_string()).unwrap().unwrap_err();
    assert_eq!(message_and_code(&e), ("未知的收支类型!".to_string(), util::CODE_FAIL));
}

#[test]
fn add_journal_overflow_is_none() {
    let s = FinancialService {};
    let max = amount(79228162514264337593543950335, 0);
    let arg = journal_request(Some(vec![line("1", max), line("1", max)]));
    assert!(s.add_journal(&arg, &caller(), "now".to_string()).is_none());
}

#[test]
fn journal_detail_rows() {
    let s = FinancialService {};
    let details = vec![line("1", amount(100, 2)), line("2", amount(3, 0))];
    let rows: Vec<GeneralJournal> = s.journal_details(Some(42), &details);
    assert_eq!(rows.len(), 2);
    assert_eq!(rows[0].journal_id, Some(42));
    assert_eq!(rows[1].flag, Some("2".to_string()));
    assert_eq!(rows[1].remarks, Some("lunch".to_string()));
    assert!(rows[0].id.is_none());
}

#[test]
fn add_general_journal_updates_balance() {
    let s = FinancialService {};
    let exist = Some(journal(amount(1000, 2), amount(200, 2), Day { year: 2024, month: 5, day: 1 }));
    let arg = line("2", amount(150, 2));
    let (j, g) = s
        .add_general_journal(&arg, &caller(), &exist, today(), "t".to_string())
        .unwrap()
        .unwrap();
    assert_eq!(cents(&j.income.unwrap()), 1000);
    assert_eq!(cents(&j.outlay.unwrap()), 350);
    assert_eq!(cents(&j.total.unwrap()), 1350);
    assert_eq!(j.update_time, Some("t".to_string()));
    assert_eq!(g.journal_id, Some(7));
    assert_eq!(g.flag, Some("2".to_string()));
    assert!(g.id.is_none());
}

#[test]
fn add_general_journal_refusals() {
    let s = FinancialService {};
    let mut arg = line("1", amount(1, 0));
    arg.remarks = Some(String::new());
    let e = s.add_general_journal(&arg, &caller(), &None, today(), "t".to_string()).unwrap().unwrap_err();
    assert_eq!(message_and_code(&e), ("流水号、收支类型、金额和备注不能为空!".to_string(), util::NOT_PARAMETER_CODE));

    let mut arg = line("1", amount(1, 0));
    arg.id = Some(99);
    let e = s.add_general_journal(&arg, &caller(), &None, today(), "t".to_string()).unwrap().unwrap_err();
    assert_eq!(message_and_code(&e), ("id=99 的流水不存在!".to_string(), util::NOT_EXIST_CODE));

    let old = Some(journal(amount(1, 0), amount(1, 0), Day { year: 2024, month: 4, day: 30 }));
    let e = s.add_general_journal(&arg, &caller(), &old, today(), "t".to_string()).unwrap().unwrap_err();
    assert_eq!(
        message_and_code(&e),
        ("只允许修改本月的流水，历史流水已归档，不允许操作".to_string(), util::CODE_FAIL)
    );

    let exist = Some(journal(amount(1, 0), amount(1, 0), Day { year: 2024, month: 5, day: 3 }));
    let unknown = line("0", amount(1, 0));
    let e = s.add_general_journal(&unknown, &caller(), &exist, today(), "t".to_string()).unwrap().unwrap_err();
    assert_eq!(message_and_code(&e), ("未知的收支类型!".to_string(), util::CODE_FAIL));
}

#[test]
fn edit_general_journal_moves_amount_between_kinds() {
    let s = FinancialService {};
    let exist = Some(journal(amount(1000, 2), amount(200, 2), Day { year: 2024, month: 5, day: 9 }));
    let old_line = Some(GeneralJournal {
        id: Some(11),
        journal_id: Some(7),
        flag: Some("1".to_string()),
        amount: Some(amount(300, 2)),
        remarks: Some("old".to_string()),
    });
    let mut arg = line("2", amount(300, 2));
    arg.id = Some(11);
    let (j, g) = s
        .edit_general_journal(&arg, &caller(), &exist, &old_line, today(), "t".to_string())
        .unwrap()
        .unwrap();
    assert_eq!(cents(&j.income.unwrap()), 700);
    assert_eq!(cents(&j.outlay.unwrap()), 500);
    assert_eq!(cents(&j.total.unwrap()), 1200);
    assert_eq!(g.id, Some(11));
    assert_eq!(g.flag, Some("2".to_string()));
}

#[test]
fn edit_general_journal_with_same_line_changes_nothing() {
    let s = FinancialService {};
    let exist = Some(journal(amount(1000, 2), amount(200, 2), Day { year: 2024, month: 5, day: 9 }));
    let old_line = Some(GeneralJournal {
        id: Some(11),
        journal_id: Some(7),
        flag: Some("2".to_string()),
        amount: Some(amount(45, 1)),
        remarks: Some("old".to_string()),
    });
    let mut arg = line("2", amount(45, 1));
    arg.id = Some(11);
    let (j, _) = s
        .edit_general_journal(&arg, &caller(), &exist, &old_line, today(), "t".to_string())
        .unwrap()
        .unwrap();
    assert_eq!(cents(&j.income.unwrap()), 1000);
    assert_eq!(cents(&j.outlay.unwrap()), 200);
}

#[test]
fn edit_general_journal_missing_line() {
    let s = FinancialService {};
    let exist = Some(journal(amount(1, 0), amount(1, 0), Day { year: 2024, month: 5, day: 9 }));
    let mut arg = line("2", amount(45, 1));
    arg.id = Some(12);
    let e = s
        .edit_general_journal(&arg, &caller(), &exist, &None, today(), "t".to_string())
        .unwrap()
        .unwrap_err();
    assert_eq!(message_and_code(&e), ("id=12 的流水明细不存在!".to_string(), util::NOT_EXIST_CODE));
    let mut no_id = line("2", amount(45, 1));
    no_id.id = None;
    let e = s
        .edit_general_journal(&no_id, &caller(), &exist, &None, today(), "t".to_string())
        .unwrap()
        .unwrap_err();
    assert_eq!(message_and_code(&e).1, util::NOT_PARAMETER_CODE);
}

#[test]
fn delete_general_journal_outcomes() {
    let s = FinancialService {};
    let exist = Some(journal(amount(1000, 2), amount(200, 2), Day { year: 2024, month: 5, day: 9 }));
    let old_line = Some(GeneralJournal {
        id: Some(11),
        journal_id: Some(7),
        flag: Some("1".to_string()),
        amount: Some(amount(300, 2)),
        remarks: Some("old".to_string()),
    });
    match s
        .delete_general_journal(11, &old_line, &caller(), &exist, 3, today(), "t".to_string())
        .unwrap()
        .unwrap()
    {
        LineRemoval::LineOnly(j) => {
            assert_eq!(cents(&j.income.unwrap()), 700);
            assert_eq!(cents(&j.outlay.unwrap()), 200);
            assert_eq!(cents(&j.total.unwrap()), 900);
        }
        LineRemoval::WholeJournal => panic!("the journal has other lines"),
    }
    assert!(matches!(
        s.delete_general_journal(11, &old_line, &caller(), &exist, 1, today(), "t".to_string()),
        Some(Ok(LineRemoval::WholeJournal))
    ));
    let e = s
        .delete_general_journal(11, &None, &caller(), &exist, 3, today(), "t".to_string())
        .unwrap()
        .unwrap_err();
    assert_eq!(message_and_code(&e), ("id=11 的流水明细不存在!".to_string(), util::NOT_EXIST_CODE));
    let e = s
        .delete_general_journal(11, &old_line, &caller(), &None, 3, today(), "t".to_string())
        .unwrap()
        .unwrap_err();
    assert_eq!(message_and_code(&e), ("id=7 的流水不存在!".to_string(), util::NOT_EXIST_CODE));
}

#[test]
fn add_then_delete_line_restores_journal() {
    let s = FinancialService {};
    let start = journal(amount(1234, 2), amount(99, 1), Day { year: 2024, month: 5, day: 9 });
    let arg = line("1", amount(1766, 2));
    let (after_add, g) = s
        .add_general_journal(&arg, &caller(), &Some(start.clone()), today(), "t".to_string())
        .unwrap()
        .unwrap();
    let mut after_add = after_add;
    after_add.archive_date = start.archive_date;
    let removal = s
        .delete_general_journal(1, &Some(g), &caller(), &Some(after_add), 2, today(), "t".to_string())
        .unwrap()
        .unwrap();
    match removal {
        LineRemoval::LineOnly(j) => {
            assert_eq!(cents(&j.income.unwrap()), cents(&start.income.unwrap()));
            assert_eq!(cents(&j.outlay.unwrap()), cents(&start.outlay.unwrap()));
        }
        LineRemoval::WholeJournal => panic!("the journal has other lines"),
    }
}

#[test]
fn edit_and_delete_journal_checks() {
    let s = FinancialService {};
    let arg = journal_request(None);
    let exist = Some(journal(amount(1, 0), amount(1, 0), Day { year: 2024, month: 5, day: 9 }));
    let j = s.edit_journal(&arg, &caller(), &exist, today(), "t".to_string()).unwrap();
    assert_eq!(j.id, Some(7));
    assert!(j.income.is_none() && j.outlay.is_none() && j.total.is_none());
    assert_eq!(j.remarks, Some("day".to_string()));
    assert_eq!(j.update_time, Some("t".to_string()));

    let old = Some(journal(amount(1, 0), amount(1, 0), Day { year: 2023, month: 5, day: 9 }));
    let e = s.edit_journal(&arg, &caller(), &old, today(), "t".to_string()).unwrap_err();
    assert_eq!(message_and_code(&e).0, "只允许修改本月的流水，历史流水已归档，不允许操作");
    let e = s.delete_journal(7, &caller(), &old, today()).unwrap_err();
    assert_eq!(message_and_code(&e).0, "只允许删除本月的流水，历史流水已归档，不允许操作");
    assert!(s.delete_journal(7, &caller(), &exist, today()).is_ok());
    let e = s.delete_journal(8, &caller(), &None, today()).unwrap_err();
    assert_eq!(message_and_code(&e), ("id=8 的流水不存在!".to_string(), util::NOT_EXIST_CODE));
    let e = s.delete_journal(8, &None, &exist, today()).unwrap_err();
    assert_eq!(message_and_code(&e).1, util::NOT_AUTHORIZE_CODE);
}

#[test]
fn journal_keeps_the_sums_of_its_lines() {
    // Lines: income 70 and 30, outlay 50: the journal holds 100 / 50.
    let s = FinancialService {};
    let lines = vec![line("1", amount(70, 0)), line("1", amount(30, 0)), line("2", amount(50, 0))];
    let (income, outlay) = match s.tally_lines(&lines) {
        Entry::Booked(b) => (b.income, b.outlay),
        _ => panic!("expected sums"),
    };
    assert_eq!((cents(&income), cents(&outlay)), (10000, 5000));
    let exist = Some(journal(income, outlay, Day { year: 2024, month: 5, day: 9 }));
    // The income line of 30 becomes an outlay of 20: 70 / 70 / 140.
    let old_line = Some(GeneralJournal {
        id: Some(11),
        journal_id: Some(7),
        flag: Some("1".to_string()),
        amount: Some(amount(30, 0)),
        remarks: Some("old".to_string()),
    });
    let mut arg = line("2", amount(20, 0));
    arg.id = Some(11);
    let (j, _) = s
        .edit_general_journal(&arg, &caller(), &exist, &old_line, today(), "t".to_string())
        .unwrap()
        .unwrap();
    let edited = vec![line("1", amount(70, 0)), line("2", amount(20, 0)), line("2", amount(50, 0))];
    match s.tally_lines(&edited) {
        Entry::Booked(b) => {
            assert_eq!(cents(&j.income.clone().unwrap()), cents(&b.income));
            assert_eq!(cents(&j.outlay.clone().unwrap()), cents(&b.outlay));
        }
        _ => panic!("expected sums"),
    }
    assert_eq!(
        (cents(&j.income.unwrap()), cents(&j.outlay.unwrap()), cents(&j.total.unwrap())),
        (7000, 7000, 14000)
    );
}
