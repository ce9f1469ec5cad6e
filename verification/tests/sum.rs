use exercises::sum::return_function;

#[test]
fn ten_plus_twenty() {
    let (total, message) = return_function(10, 20);
    assert_eq!(total, 30);
    assert_eq!(message, "The sum of the two numbers is: 30");
}

#[test]
fn zero_plus_zero() {
    let (total, message) = return_function(0, 0);
    assert_eq!(total, 0);
    assert_eq!(message, "The sum of the two numbers is: 0");
}

#[test]
fn negative_sum() {
    let (total, message) = return_function(-5, 2);
    assert_eq!(total, -3);
    assert_eq!(message, "The sum of the two numbers is: -3");
}

#[test]
fn sums_at_the_ends_of_the_range() {
    let (total, message) = return_function(i32::MAX, 0);
    assert_eq!(total, 2147483647);
    assert_eq!(message, "The sum of the two numbers is: 2147483647");
    let (total, message) = return_function(i32::MIN, 0);
    assert_eq!(total, -2147483648);
    assert_eq!(message, "The sum of the two numbers is: -2147483648");
    let (total, message) = return_function(i32::MAX, i32::MIN);
    assert_eq!(total, -1);
    assert_eq!(message, "The sum of the two numbers is: -1");
}
