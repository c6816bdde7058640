use not_expense_bot::amount::{parse_amount, push_amount, AmountError};

fn shown(c: u64) -> String {
    let mut s = String::new();
    push_amount(&mut s, c);
    s
}

#[test]
fn amount_rounds_half_up_to_hundredths() {
    assert_eq!(parse_amount("12.345"), Ok(1235));
    assert_eq!(parse_amount("12.344"), Ok(1234));
    assert_eq!(parse_amount("0.005"), Ok(1));
    assert_eq!(parse_amount("0.004999"), Ok(0));
    assert_eq!(parse_amount("2.675"), Ok(268));
    assert_eq!(parse_amount("9.999"), Ok(1000));
}

#[test]
fn amount_accepts_plain_forms() {
    assert_eq!(parse_amount("5"), Ok(500));
    assert_eq!(parse_amount("1."), Ok(100));
    assert_eq!(parse_amount(".5"), Ok(50));
    assert_eq!(parse_amount("+2.5"), Ok(250));
    assert_eq!(parse_amount("007.10"), Ok(710));
    assert_eq!(parse_amount("0"), Ok(0));
}

#[test]
fn amount_negative_zero_is_zero() {
    assert_eq!(parse_amount("-0"), Ok(0));
    assert_eq!(parse_amount("-0.000"), Ok(0));
}

#[test]
fn amount_below_zero_is_refused() {
    assert_eq!(parse_amount("-3"), Err(AmountError::Negative));
    assert_eq!(parse_amount("-0.001"), Err(AmountError::Negative));
    assert_eq!(parse_amount("-99999999999999999999999"), Err(AmountError::Negative));
}

#[test]
fn amount_that_is_not_a_number_is_refused() {
    for t in ["", ".", "+", "-", "abc", " 5", "5 ", "1e3", "inf", "NaN", "1.2.3", "1,5", "+-1"] {
        assert_eq!(parse_amount(t), Err(AmountError::Invalid), "{:?}", t);
    }
}

#[test]
fn amount_at_the_largest_size() {
    assert_eq!(parse_amount("184467440737095516.15"), Ok(u64::MAX));
    assert_eq!(parse_amount("184467440737095516.16"), Err(AmountError::TooLarge));
    assert_eq!(parse_amount("184467440737095516.149"), Ok(u64::MAX));
    assert_eq!(parse_amount("184467440737095516.155"), Err(AmountError::TooLarge));
    assert_eq!(parse_amount("99999999999999999999"), Err(AmountError::TooLarge));
}

#[test]
fn amount_text_drops_trailing_zeros() {
    assert_eq!(shown(1235), "12.35");
    assert_eq!(shown(500), "5");
    assert_eq!(shown(1250), "12.5");
    assert_eq!(shown(1205), "12.05");
    assert_eq!(shown(5), "0.05");
    assert_eq!(shown(0), "0");
    assert_eq!(shown(u64::MAX), "184467440737095516.15");
}

#[test]
fn amount_text_appends() {
    let mut s = String::from("= ");
    push_amount(&mut s, 710);
    assert_eq!(s, "= 7.1");
}
