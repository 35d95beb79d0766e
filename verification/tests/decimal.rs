use zap_clock::decimal::{append_decimal, to_decimal};

#[test]
fn single_digits_in_decimal() {
    let expected = ["0", "1", "2", "3", "4", "5", "6", "7", "8", "9"];
    for (n, text) in expected.iter().enumerate() {
        assert_eq!(to_decimal(n as u64), *text);
    }
}

#[test]
fn longer_numbers_in_decimal() {
    assert_eq!(to_decimal(10), "10");
    assert_eq!(to_decimal(25000), "25000");
    assert_eq!(to_decimal(1000000007), "1000000007");
    assert_eq!(to_decimal(u64::MAX), "18446744073709551615");
}

#[test]
fn decimal_agrees_with_the_standard_library() {
    let mut n: u64 = 1;
    for _ in 0..64 {
        assert_eq!(to_decimal(n), n.to_string());
        assert_eq!(to_decimal(n - 1), (n - 1).to_string());
        n = n.wrapping_mul(3).wrapping_add(7);
    }
}

#[test]
fn append_decimal_keeps_what_was_there() {
    let mut text = String::from("pay_");
    append_decimal(&mut text, 42);
    assert_eq!(text, "pay_42");
    append_decimal(&mut text, 0);
    assert_eq!(text, "pay_420");
}

#[test]
fn different_numbers_read_differently() {
    assert_ne!(to_decimal(1), to_decimal(10));
    assert_ne!(to_decimal(12), to_decimal(21));
    assert_eq!(to_decimal(907).parse::<u64>().unwrap(), 907);
}
