use not_expense_bot::utils::{get_month_number, month_number_from_lowercase};

#[test]
fn month_names_in_any_case() {
    assert_eq!(get_month_number("January"), Some(1));
    assert_eq!(get_month_number("MAY"), Some(5));
    assert_eq!(get_month_number("sePTember"), Some(9));
    assert_eq!(get_month_number("december"), Some(12));
}

#[test]
fn month_names_unknown() {
    assert_eq!(get_month_number("Mai"), None);
    assert_eq!(get_month_number(""), None);
    assert_eq!(get_month_number(" may"), None);
}

#[test]
fn month_from_lowercase_is_exact() {
    assert_eq!(month_number_from_lowercase("june"), Some(6));
    assert_eq!(month_number_from_lowercase("June"), None);
}

#[test]
fn every_month_has_its_number() {
    let names = [
        "january", "february", "march", "april", "may", "june", "july", "august", "september",
        "october", "november", "december",
    ];
    for (i, n) in names.iter().enumerate() {
        assert_eq!(get_month_number(n), Some(i as u32 + 1));
        assert_eq!(get_month_number(&n.to_uppercase()), Some(i as u32 + 1));
    }
}
