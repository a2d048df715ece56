use cronk::{Field, Nth, Weekday};

#[test]
fn weekday_without_nth_goes_by_the_day_of_the_week() {
    let friday = Weekday { field: Field::Single(5), nth: None };
    for day in 1..=31 {
        assert!(friday.is_valid(5, day));
        assert!(!friday.is_valid(4, day));
        assert!(!friday.is_valid(6, day));
    }
}

#[test]
fn weekday_with_a_list_or_a_range() {
    let weekend = Weekday { field: Field::Multiple(vec![6, 0]), nth: None };
    assert!(weekend.is_valid(0, 10));
    assert!(weekend.is_valid(6, 10));
    assert!(!weekend.is_valid(3, 10));

    let working = Weekday { field: Field::Range(1, 5), nth: None };
    assert!(!working.is_valid(0, 10));
    assert!(working.is_valid(1, 10));
    assert!(working.is_valid(5, 10));
    assert!(!working.is_valid(6, 10));
}

#[test]
fn nth_counts_weeks_of_seven_days_from_the_first() {
    for n in 0..=6u8 {
        let tuesday = Weekday { field: Field::Single(2), nth: Some(Nth(n)) };
        for day in 1..=31u8 {
            let week = (day + 6) / 7;
            assert_eq!(tuesday.is_valid(2, day), n == week);
            assert!(!tuesday.is_valid(3, day));
        }
    }
}

#[test]
fn nth_at_the_last_day_of_a_week() {
    let second = Weekday { field: Field::Single(2), nth: Some(Nth(2)) };
    assert!(!second.is_valid(2, 7));
    assert!(second.is_valid(2, 8));
    assert!(second.is_valid(2, 14));
    assert!(!second.is_valid(2, 15));

    let first = Weekday { field: Field::Single(2), nth: Some(Nth(1)) };
    assert!(first.is_valid(2, 1));
    assert!(first.is_valid(2, 7));
    assert!(!first.is_valid(2, 8));

    let fifth = Weekday { field: Field::Single(2), nth: Some(Nth(5)) };
    assert!(!fifth.is_valid(2, 28));
    assert!(fifth.is_valid(2, 29));
    assert!(fifth.is_valid(2, 31));
}
