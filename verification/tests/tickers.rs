use cronk::{Field, Increment, RangeTicker, SetTicker};

#[test]
fn range_ticker_walks_up_and_wraps() {
    let mut ticker = RangeTicker::new(1, 3);
    assert_eq!(ticker.next(), (1, false));
    assert_eq!(ticker.next(), (2, false));
    assert_eq!(ticker.next(), (3, false));
    assert_eq!(ticker.next(), (1, true));
    assert_eq!(ticker.next(), (2, false));
    assert_eq!(ticker.next(), (3, false));
    assert_eq!(ticker.next(), (1, true));
}

#[test]
fn range_ticker_starts_at_the_current_value() {
    let mut ticker = RangeTicker::with_current(0, 59, 58);
    assert_eq!(ticker.next(), (58, false));
    assert_eq!(ticker.next(), (59, false));
    assert_eq!(ticker.next(), (0, true));
    assert_eq!(ticker.next(), (1, false));
}

#[test]
fn range_ticker_started_outside_its_range_wraps_at_once() {
    let mut above = RangeTicker::with_current(1, 31, 40);
    assert_eq!(above.next(), (1, true));
    assert_eq!(above.next(), (2, false));

    let mut below = RangeTicker::with_current(5, 9, 2);
    assert_eq!(below.next(), (5, true));
    assert_eq!(below.next(), (6, false));
}

#[test]
fn range_ticker_of_one_value_carries_from_the_second_call() {
    let mut ticker = RangeTicker::new(7, 7);
    assert_eq!(ticker.next(), (7, false));
    assert_eq!(ticker.next(), (7, true));
    assert_eq!(ticker.next(), (7, true));
}

#[test]
fn range_ticker_reaches_the_largest_value() {
    let mut ticker = RangeTicker::new(254, 255);
    assert_eq!(ticker.next(), (254, false));
    assert_eq!(ticker.next(), (255, false));
    assert_eq!(ticker.next(), (254, true));
    assert_eq!(ticker.next(), (255, false));

    let mut top = RangeTicker::new(255, 255);
    assert_eq!(top.next(), (255, false));
    assert_eq!(top.next(), (255, true));
    assert_eq!(top.next(), (255, true));
}

#[test]
fn range_ticker_with_bounds_out_of_order_holds_its_lower_bound() {
    let mut ticker = RangeTicker::new(9, 5);
    assert_eq!(ticker.next(), (9, true));
    assert_eq!(ticker.next(), (9, true));
}

#[test]
fn set_ticker_gives_its_first_value_first_without_carry() {
    let mut ticker = SetTicker::new(vec![5, 3, 8]);
    assert_eq!(ticker.next(), (5, false));
    assert_eq!(ticker.next(), (3, false));
    assert_eq!(ticker.next(), (8, false));
    assert_eq!(ticker.next(), (5, true));
    assert_eq!(ticker.next(), (3, false));
    assert_eq!(ticker.next(), (8, false));
    assert_eq!(ticker.next(), (5, true));
}

#[test]
fn set_ticker_of_one_value_carries_from_the_second_call() {
    let mut ticker = SetTicker::new(vec![4]);
    assert_eq!(ticker.next(), (4, false));
    assert_eq!(ticker.next(), (4, true));
    assert_eq!(ticker.next(), (4, true));
}

#[test]
fn fixed_value_carries_on_every_call() {
    let mut ticker = Increment::Single(17);
    for _ in 0..5 {
        assert_eq!(ticker.next(), (17, true));
    }
}

#[test]
fn increment_forwards_to_its_ticker() {
    let mut list = Increment::Multiple(SetTicker::new(vec![2, 4]));
    assert_eq!(list.next(), (2, false));
    assert_eq!(list.next(), (4, false));
    assert_eq!(list.next(), (2, true));

    let mut range = Increment::Range(RangeTicker::new(10, 11));
    assert_eq!(range.next(), (10, false));
    assert_eq!(range.next(), (11, false));
    assert_eq!(range.next(), (10, true));
}

#[test]
fn a_list_is_walked_in_its_order_again_and_again() {
    let list = vec![40u8, 10, 30, 20];
    let mut ticker = Field::Multiple(list.clone()).into_increment();
    for k in 0..25usize {
        let (value, carry) = ticker.next();
        assert_eq!(value, list[k % list.len()]);
        assert_eq!(carry, k > 0 && k % list.len() == 0);
    }
}

#[test]
fn a_range_is_walked_upwards_again_and_again() {
    let mut ticker = Field::Range(20, 26).into_increment();
    for k in 0..30u8 {
        let (value, carry) = ticker.next();
        assert_eq!(value, 20 + k % 7);
        assert_eq!(carry, k > 0 && k % 7 == 0);
    }
}
