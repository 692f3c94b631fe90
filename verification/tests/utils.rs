use home_cloud::util::date_time::{Day, DayTime, DateUtils};
use home_cloud::util::string::split_char;
use home_cloud::util::{is_blank, money::Amount};

#[test]
fn month_lengths() {
    assert_eq!(DateUtils::get_current_month_days(2024, 2), 29);
    assert_eq!(DateUtils::get_current_month_days(2023, 2), 28);
    assert_eq!(DateUtils::get_current_month_days(1900, 2), 28);
    assert_eq!(DateUtils::get_current_month_days(2000, 2), 29);
    assert_eq!(DateUtils::get_current_month_days(2023, 4), 30);
    assert_eq!(DateUtils::get_current_month_days(2023, 12), 31);
}

#[test]
fn moments_move_by_days_and_months() {
    let t = DayTime { date: Day { year: 2024, month: 2, day: 28 }, hour: 23, minute: 59, second: 58 };
    let next = DateUtils::plan_data_compute(t, 2, 2).unwrap();
    assert_eq!((next.date.year, next.date.month, next.date.day, next.hour, next.minute, next.second), (2024, 3, 1, 23, 59, 58));
    let end_of_year = DayTime { date: Day { year: 2023, month: 12, day: 31 }, hour: 0, minute: 0, second: 0 };
    let n = DateUtils::plan_data_compute(end_of_year, 2, 1).unwrap();
    assert_eq!((n.date.year, n.date.month, n.date.day), (2024, 1, 1));
    let m = DateUtils::plan_data_compute(DayTime { date: Day { year: 2023, month: 10, day: 31 }, hour: 0, minute: 0, second: 0 }, 4, 4).unwrap();
    assert_eq!((m.date.year, m.date.month, m.date.day), (2024, 2, 29));
}

#[test]
fn text_helpers() {
    let pieces: Vec<String> = split_char("a,,b,", ',').iter().map(|p| p.iter().collect()).collect();
    assert_eq!(pieces, vec!["a", "", "b", ""]);
    assert_eq!(split_char("", ',').len(), 1);
    assert_eq!(home_cloud::util::string::concat(&vec!["a", "b", "c"]), "abc");
    assert!(is_blank(&None));
    assert!(is_blank(&Some(String::new())));
    assert!(!is_blank(&Some(" ".to_string())));
}

#[test]
fn zero_amount() {
    let z = Amount::zero();
    assert_eq!((z.mantissa, z.scale), (0, 0));
}
