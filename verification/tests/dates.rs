use task_manager::date::{CalendarDay, Date, DateError};

fn parse(text: &str) -> Result<Date, DateError> {
    Date::try_from(text.to_string())
}

#[test]
fn a_written_day_is_read() {
    let date = parse("30-09-24").unwrap();
    let day = date.0.unwrap();
    assert_eq!(day.day(), 30);
    assert_eq!(day.month(), 9);
    assert_eq!(day.year(), 2024);
}

#[test]
fn a_day_is_written_with_two_digits_each() {
    let day = CalendarDay::new(2005, 3, 7).unwrap();
    assert_eq!(Date(Some(day)).to_text(), "07-03-05");
    let day = CalendarDay::new(2099, 12, 31).unwrap();
    assert_eq!(Date(Some(day)).to_text(), "31-12-99");
    let day = CalendarDay::new(2000, 1, 1).unwrap();
    assert_eq!(Date(Some(day)).to_text(), "01-01-00");
}

#[test]
fn no_day_is_written_as_nothing() {
    assert_eq!(Date::none().to_text(), "");
    assert_eq!(Date::none(), Date(None));
}

#[test]
fn reading_undoes_writing() {
    for text in ["01-01-00", "29-02-24", "31-12-99", "15-08-47"] {
        assert_eq!(parse(text).unwrap().to_text(), text);
    }
    let day = CalendarDay::new(2031, 10, 9).unwrap();
    assert_eq!(parse(&Date(Some(day)).to_text()), Ok(Date(Some(day))));
}

#[test]
fn the_placeholder_is_the_thirtieth_of_september_2024() {
    assert_eq!(Date::placeholder().to_text(), "30-09-24");
    assert_eq!(Date::placeholder(), Date(CalendarDay::new(2024, 9, 30)));
}

#[test]
fn a_text_of_another_form_is_malformed() {
    for text in [
        "", "30-09-2024", "2024-09-30", "30/09/24", "30-09/24", "3a-09-24", "30-0x-24",
        "30-09-2y", " 30-09-24", "30-09-24 ", "300924", "٣٠-09-24", "30–09-24", "1-1-24",
    ] {
        assert_eq!(parse(text), Err(DateError::Malformed), "{:?}", text);
    }
}

#[test]
fn a_day_that_the_calendar_lacks_is_no_such_day() {
    for text in [
        "00-01-24", "32-01-24", "31-04-24", "31-06-24", "31-09-24", "31-11-24", "30-02-24",
        "29-02-23", "29-02-01", "01-00-24", "01-13-24", "99-99-99",
    ] {
        assert_eq!(parse(text), Err(DateError::NoSuchDay), "{:?}", text);
    }
}

#[test]
fn february_has_a_twenty_ninth_every_fourth_year() {
    for text in ["29-02-00", "29-02-04", "29-02-24", "29-02-96"] {
        assert!(parse(text).is_ok(), "{:?}", text);
    }
    for text in ["29-02-01", "29-02-02", "29-02-03", "29-02-99"] {
        assert_eq!(parse(text), Err(DateError::NoSuchDay), "{:?}", text);
    }
}

#[test]
fn every_month_ends_where_the_calendar_says() {
    let lengths = [31, 28, 31, 30, 31, 30, 31, 31, 30, 31, 30, 31];
    for (month, length) in (1u8..=12).zip(lengths) {
        assert!(CalendarDay::new(2023, month, length).is_some());
        assert!(CalendarDay::new(2023, month, length + 1).is_none());
    }
}

#[test]
fn days_outside_the_century_are_refused() {
    assert!(CalendarDay::new(1999, 12, 31).is_none());
    assert!(CalendarDay::new(2100, 1, 1).is_none());
    assert!(CalendarDay::new(2000, 1, 1).is_some());
    assert!(CalendarDay::new(2099, 12, 31).is_some());
    assert!(CalendarDay::new(2024, 0, 1).is_none());
    assert!(CalendarDay::new(2024, 1, 0).is_none());
}
