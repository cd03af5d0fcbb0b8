use chrome_driver::decimal::append_decimal;

fn numeral(n: u16) -> String {
    let mut out = String::new();
    append_decimal(&mut out, n);
    out
}

#[test]
fn zero_is_one_digit() {
    assert_eq!(numeral(0), "0");
}

#[test]
fn numerals_have_no_padding() {
    assert_eq!(numeral(7), "7");
    assert_eq!(numeral(9), "9");
    assert_eq!(numeral(10), "10");
    assert_eq!(numeral(99), "99");
    assert_eq!(numeral(100), "100");
    assert_eq!(numeral(1000), "1000");
    assert_eq!(numeral(10000), "10000");
}

#[test]
fn inner_zeros_are_kept() {
    assert_eq!(numeral(101), "101");
    assert_eq!(numeral(8080), "8080");
    assert_eq!(numeral(60006), "60006");
}

#[test]
fn the_largest_number_has_five_digits() {
    assert_eq!(numeral(u16::MAX), "65535");
}

#[test]
fn the_numeral_follows_what_is_there() {
    let mut out = String::from("port ");
    append_decimal(&mut out, 9515);
    assert_eq!(out, "port 9515");
    append_decimal(&mut out, 0);
    assert_eq!(out, "port 95150");
}

#[test]
fn every_number_has_the_numeral_that_std_prints() {
    for n in 0..=u16::MAX {
        assert_eq!(numeral(n), format!("{}", n));
    }
}

#[test]
fn different_numbers_have_different_numerals() {
    assert_ne!(numeral(1), numeral(10));
    assert_ne!(numeral(12), numeral(21));
    assert_ne!(numeral(6553), numeral(65535));
}
