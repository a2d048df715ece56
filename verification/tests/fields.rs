use cronk::Field;

#[test]
fn seed_of_a_fixed_value_is_the_value() {
    assert_eq!(Field::Single(4u8).seed(), 4);
}

#[test]
fn seed_of_a_list_is_its_first_value() {
    assert_eq!(Field::Multiple(vec![9u8, 2, 5]).seed(), 9);
}

#[test]
fn seed_of_a_range_is_its_lower_bound() {
    assert_eq!(Field::Range(3u8, 8).seed(), 3);
}

#[test]
fn into_increment_starts_each_kind_at_its_seed() {
    assert_eq!(Field::Single(6u8).into_increment().next(), (6, true));
    assert_eq!(Field::Multiple(vec![9u8, 2]).into_increment().next(), (9, false));
    assert_eq!(Field::Range(3u8, 8).into_increment().next(), (3, false));
}

#[test]
fn a_fixed_value_accepts_itself_alone() {
    let field = Field::Single(5u8);
    assert!(field.accepts(5));
    assert!(!field.accepts(4));
    assert!(!field.accepts(6));
}

#[test]
fn a_list_accepts_its_members() {
    let field = Field::Multiple(vec![1u8, 3, 5]);
    assert!(field.accepts(1));
    assert!(field.accepts(3));
    assert!(field.accepts(5));
    assert!(!field.accepts(0));
    assert!(!field.accepts(2));
    assert!(!field.accepts(6));
    assert!(!Field::Multiple(Vec::<u8>::new()).accepts(0));
}

#[test]
fn a_range_accepts_its_bounds_and_what_lies_between() {
    let field = Field::Range(1u8, 5);
    assert!(!field.accepts(0));
    assert!(field.accepts(1));
    assert!(field.accepts(3));
    assert!(field.accepts(5));
    assert!(!field.accepts(6));
    assert!(!Field::Range(5u8, 1).accepts(3));
}
