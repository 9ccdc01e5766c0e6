use doplr::metadata::providers::text::{decimal_string, digit_str, field_term, grouped_string, number_term};

#[test]
fn each_digit_has_its_character() {
    let digits = ["0", "1", "2", "3", "4", "5", "6", "7", "8", "9"];
    for d in 0..10u32 {
        assert_eq!(digits[d as usize], digit_str(d));
    }
}

#[test]
fn decimal_numerals() {
    assert_eq!("0", decimal_string(0));
    assert_eq!("9", decimal_string(9));
    assert_eq!("10", decimal_string(10));
    assert_eq!("1999", decimal_string(1999));
    assert_eq!("100000", decimal_string(100000));
    assert_eq!("4294967295", decimal_string(u32::MAX));
}

#[test]
fn decimal_numerals_agree_with_the_standard_library() {
    let mut n: u32 = 1;
    for _ in 0..40 {
        assert_eq!(n.to_string(), decimal_string(n));
        n = n.wrapping_mul(2654435761).wrapping_add(12345);
    }
}

#[test]
fn field_term_puts_a_colon_between() {
    assert_eq!("title:Great Song", field_term("title", "Great Song"));
    assert_eq!(":", field_term("", ""));
}

#[test]
fn number_term_writes_the_number_in_decimal() {
    assert_eq!("dur:1234", number_term("dur", 1234));
}

#[test]
fn grouped_string_is_always_parenthesised() {
    assert_eq!("(a AND b)", grouped_string(String::from("a"), " AND ", String::from("b")));
    assert_eq!("( OR )", grouped_string(String::new(), " OR ", String::new()));
}
