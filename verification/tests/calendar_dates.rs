use pmcli::calendar::Date;

fn ymd(date: Date) -> (i32, u32, u32) {
    (date.year(), date.month(), date.day())
}

#[test]
fn a_date_must_exist_in_the_calendar() {
    assert_eq!(Date::new(2024, 2, 29).map(ymd), Some((2024, 2, 29)));
    assert_eq!(Date::new(2023, 2, 29), None);
    assert_eq!(Date::new(1900, 2, 29), None);
    assert_eq!(Date::new(2000, 2, 29).map(ymd), Some((2000, 2, 29)));
    assert_eq!(Date::new(2023, 4, 31), None);
    assert_eq!(Date::new(2023, 4, 30).map(ymd), Some((2023, 4, 30)));
    assert_eq!(Date::new(2023, 12, 31).map(ymd), Some((2023, 12, 31)));
    assert_eq!(Date::new(2023, 12, 32), None);
    assert_eq!(Date::new(2023, 0, 1), None);
    assert_eq!(Date::new(2023, 13, 1), None);
    assert_eq!(Date::new(2023, 1, 0), None);
    assert_eq!(Date::new(-4, 2, 29).map(ymd), Some((-4, 2, 29)));
    assert_eq!(Date::new(-1, 2, 29), None);
}

#[test]
fn a_date_lies_within_the_years_of_the_calendar() {
    assert!(Date::new(262142, 12, 31).is_some());
    assert!(Date::new(262143, 1, 1).is_none());
    assert!(Date::new(-262143, 1, 1).is_some());
    assert!(Date::new(-262144, 12, 31).is_none());
    assert!(Date::new(i32::MAX, 1, 1).is_none());
    assert!(Date::new(i32::MIN, 1, 1).is_none());
}

#[test]
fn the_calendar_agrees_with_chrono_on_every_day_of_some_years() {
    for year in [-400, -1, 0, 1, 1900, 2000, 2023, 2024, 2100] {
        for month in 0..14 {
            for day in 0..33 {
                let ours = Date::new(year, month, day).is_some();
                let theirs = chrono::NaiveDate::from_ymd_opt(year, month, day).is_some();
                assert_eq!(ours, theirs);
            }
        }
    }
}

#[test]
fn a_date_is_written_year_month_day() {
    assert_eq!(Date::new(2024, 2, 29).unwrap().text(), "2024-02-29");
    assert_eq!(Date::new(2023, 11, 5).unwrap().text(), "2023-11-05");
    assert_eq!(Date::new(987, 1, 1).unwrap().text(), "0987-01-01");
    assert_eq!(Date::new(0, 1, 1).unwrap().text(), "0000-01-01");
    assert_eq!(Date::new(9999, 12, 31).unwrap().text(), "9999-12-31");
}

#[test]
fn a_year_beyond_four_digits_is_written_with_its_sign() {
    assert_eq!(Date::new(10000, 1, 1).unwrap().text(), "+10000-01-01");
    assert_eq!(Date::new(262142, 12, 31).unwrap().text(), "+262142-12-31");
    assert_eq!(Date::new(-1, 3, 4).unwrap().text(), "-0001-03-04");
    assert_eq!(Date::new(-45, 3, 4).unwrap().text(), "-0045-03-04");
    assert_eq!(Date::new(-262143, 1, 1).unwrap().text(), "-262143-01-01");
}

#[test]
fn a_date_is_read_under_a_format() {
    assert_eq!(Date::parse("2024-05-17", "%Y-%m-%d").map(ymd), Some((2024, 5, 17)));
    assert_eq!(Date::parse("17/05/2024", "%d/%m/%Y").map(ymd), Some((2024, 5, 17)));
    assert_eq!(Date::parse("5sep2015", "%d%b%Y").map(ymd), Some((2015, 9, 5)));
}

#[test]
fn a_text_that_is_no_date_is_not_read() {
    assert_eq!(Date::parse("tomorrow", "%Y-%m-%d"), None);
    assert_eq!(Date::parse("2023-02-30", "%Y-%m-%d"), None);
    assert_eq!(Date::parse("2024-05-17", "%d/%m/%Y"), None);
    assert_eq!(Date::parse("2015/9", "%Y/%m"), None);
    assert_eq!(Date::parse("", "%Y-%m-%d"), None);
    assert_eq!(Date::parse("2024-05-17", ""), None);
}
