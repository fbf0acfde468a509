use toolchain_guard::decimal::decimal_string;

#[test]
fn zero_is_one_digit() {
    assert_eq!(decimal_string(0), "0");
}

#[test]
fn single_digits() {
    let expected = ["0", "1", "2", "3", "4", "5", "6", "7", "8", "9"];
    for (n, text) in expected.iter().enumerate() {
        assert_eq!(decimal_string(n as u64), *text);
    }
}

#[test]
fn several_digits_come_most_significant_first() {
    assert_eq!(decimal_string(10), "10");
    assert_eq!(decimal_string(62), "62");
    assert_eq!(decimal_string(100), "100");
    assert_eq!(decimal_string(1234567890), "1234567890");
    assert_eq!(decimal_string(9007199254740991), "9007199254740991");
}

#[test]
fn the_largest_number_is_written_in_full() {
    assert_eq!(decimal_string(u64::MAX), "18446744073709551615");
}

#[test]
fn decimal_agrees_with_the_standard_formatting() {
    let mut n: u64 = 1;
    for _ in 0..64 {
        assert_eq!(decimal_string(n), format!("{}", n));
        assert_eq!(decimal_string(n - 1), format!("{}", n - 1));
        n = n.wrapping_mul(3).wrapping_add(7);
    }
}
