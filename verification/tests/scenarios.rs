use chrono::{Datelike, NaiveDate};
use cronk::{CandidateDateTime, Expression, Field, Weekday};

fn moment(year: i32, month: u8, day: u8, hour: u8, minute: u8) -> CandidateDateTime {
    CandidateDateTime { minute, hour, day, month, year }
}

#[test]
fn friday_the_thirteenth_at_five() {
    let now = moment(2024, 1, 1, 0, 0);
    let expression = Expression {
        minute: Some(Field::Single(0)),
        hour: Some(Field::Single(17)),
        dom: Some(Field::Single(13)),
        month: None,
        dow: Some(Weekday { field: Field::Single(5), nth: None }),
    };
    let mut schedule = expression.into_schedule(now);

    let mut expected = Vec::new();
    let mut year = 2024;
    let mut month = 1;
    while expected.len() < 100 {
        let date = NaiveDate::from_ymd_opt(year, month, 13).unwrap();
        if date.weekday() == chrono::Weekday::Fri {
            expected.push(moment(year, month as u8, 13, 17, 0));
        }
        month += 1;
        if month > 12 {
            month = 1;
            year += 1;
        }
    }
    assert_eq!(expected[0], moment(2024, 9, 13, 17, 0));
    assert_eq!(expected[1], moment(2024, 12, 13, 17, 0));
    assert_eq!(expected[2], moment(2025, 6, 13, 17, 0));

    for want in expected {
        assert_eq!(schedule.next(&now, 3000), Some(want));
    }
}

#[test]
fn every_hour_at_half_past() {
    let now = moment(2024, 3, 10, 10, 15);
    let expression = Expression {
        minute: Some(Field::Single(30)),
        hour: None,
        dom: None,
        month: None,
        dow: None,
    };
    let mut schedule = expression.into_schedule(now);
    for hour in 10..24 {
        assert_eq!(schedule.next(&now, 3000), Some(moment(2024, 3, 10, hour, 30)));
    }
}

#[test]
fn the_thirty_first_of_february_is_never_found() {
    let now = moment(2024, 1, 1, 0, 0);
    let expression = Expression {
        minute: Some(Field::Single(0)),
        hour: Some(Field::Single(0)),
        dom: Some(Field::Single(31)),
        month: Some(Field::Single(2)),
        dow: None,
    };
    let mut schedule = expression.into_schedule(now);
    assert_eq!(schedule.next(&now, 2100), None);
    assert_eq!(schedule.current().year, 2100);
    assert_eq!(schedule.next(&now, 2100), None);
}
