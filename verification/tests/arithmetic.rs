#[test]
fn add_small_values() {
    assert_eq!(example::add(2, 3), 5);
    assert_eq!(example::add(1, 2), 3);
}

#[test]
fn add_negative_values() {
    assert_eq!(example::add(-7, 4), -3);
    assert_eq!(example::add(-1, -1), -2);
}

#[test]
fn add_wraps_past_the_largest_value() {
    assert_eq!(example::add(i32::MAX, 1), i32::MIN);
    assert_eq!(example::add(i32::MAX, i32::MAX), -2);
}

#[test]
fn add_wraps_past_the_smallest_value() {
    assert_eq!(example::add(i32::MIN, -1), i32::MAX);
    assert_eq!(example::add(i32::MIN, i32::MIN), 0);
}

#[test]
fn foo_test() {
    assert_eq!(example::add(0, 0), 0);
    assert_eq!(example::add(41, 0), 41);
}

#[test]
fn foo_test_2() {
    assert_eq!(example::add(17, -5), example::add(-5, 17));
}
