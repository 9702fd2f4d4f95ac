use gym_signup::numeral::decimal_string;

#[test]
fn renders_zero() {
    assert_eq!(decimal_string(0), "0");
}

#[test]
fn renders_one_digit() {
    assert_eq!(decimal_string(7), "7");
}

#[test]
fn renders_the_tier_numbers() {
    assert_eq!(decimal_string(12), "12");
    assert_eq!(decimal_string(75), "75");
    assert_eq!(decimal_string(31337), "31337");
    assert_eq!(decimal_string(30000), "30000");
    assert_eq!(decimal_string(1337), "1337");
}

#[test]
fn renders_a_round_number_with_its_zero() {
    assert_eq!(decimal_string(10), "10");
    assert_eq!(decimal_string(100), "100");
}

#[test]
fn renders_the_largest_value() {
    assert_eq!(decimal_string(i16::MAX), "32767");
}

#[test]
fn renders_negative_numbers_with_a_sign() {
    assert_eq!(decimal_string(-1), "-1");
    assert_eq!(decimal_string(-13), "-13");
}

#[test]
fn renders_the_smallest_value() {
    assert_eq!(decimal_string(i16::MIN), "-32768");
}
