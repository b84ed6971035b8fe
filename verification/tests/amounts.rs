use finance_tracker::errors::ValidationError;
use finance_tracker::models::decimal::PgDecimal;
use finance_tracker::validation::check_amount;
use finance_tracker::validation::parse_amount;

#[test]
fn amount_keeps_its_digits() {
    assert_eq!(parse_amount("45.99"), Ok(PgDecimal { mantissa: 4599, scale: 2 }));
}

#[test]
fn amount_keeps_trailing_zeros() {
    assert_eq!(parse_amount("3.50"), Ok(PgDecimal { mantissa: 350, scale: 2 }));
    assert_eq!(parse_amount("12.5"), Ok(PgDecimal { mantissa: 125, scale: 1 }));
    assert_ne!(parse_amount("3.50"), parse_amount("3.5"));
}

#[test]
fn amount_without_fraction() {
    assert_eq!(parse_amount("7"), Ok(PgDecimal { mantissa: 7, scale: 0 }));
}

#[test]
fn amount_ignores_surrounding_white_space() {
    assert_eq!(parse_amount("  45.99\t\n"), Ok(PgDecimal { mantissa: 4599, scale: 2 }));
    assert_eq!(parse_amount("\u{3000}1.25\u{a0}"), Ok(PgDecimal { mantissa: 125, scale: 2 }));
}

#[test]
fn amount_rejects_zero_negative_empty_and_words() {
    assert_eq!(parse_amount("0"), Err(ValidationError::NonPositiveAmount));
    assert_eq!(parse_amount("-5"), Err(ValidationError::NonPositiveAmount));
    assert_eq!(parse_amount(""), Err(ValidationError::EmptyAmount));
    assert_eq!(parse_amount("abc"), Err(ValidationError::InvalidAmountFormat));
}

#[test]
fn amount_of_white_space_only_is_empty() {
    assert_eq!(parse_amount("   "), Err(ValidationError::EmptyAmount));
    assert_eq!(parse_amount("\t\r\n"), Err(ValidationError::EmptyAmount));
}

#[test]
fn amount_rejects_zero_with_fraction_and_negative_fraction() {
    assert_eq!(parse_amount("0.00"), Err(ValidationError::NonPositiveAmount));
    assert_eq!(parse_amount("-0.01"), Err(ValidationError::NonPositiveAmount));
}

#[test]
fn amount_rejects_inner_white_space_and_two_points() {
    assert_eq!(parse_amount("4 5"), Err(ValidationError::InvalidAmountFormat));
    assert_eq!(parse_amount("1.2.3"), Err(ValidationError::InvalidAmountFormat));
    assert_eq!(parse_amount("12,50"), Err(ValidationError::InvalidAmountFormat));
}

#[test]
fn amount_smallest_step_is_accepted() {
    assert_eq!(parse_amount("0.01"), Ok(PgDecimal { mantissa: 1, scale: 2 }));
}

#[test]
fn amount_messages() {
    assert_eq!(ValidationError::EmptyAmount.message(), "Amount cannot be empty");
    assert_eq!(ValidationError::InvalidAmountFormat.message(), "Invalid amount format");
    assert_eq!(ValidationError::NonPositiveAmount.message(), "Amount must be greater than zero");
}

#[test]
fn check_amount_judges_the_number() {
    assert_eq!(check_amount(None), Err(ValidationError::InvalidAmountFormat));
    assert_eq!(
        check_amount(Some(PgDecimal { mantissa: 0, scale: 3 })),
        Err(ValidationError::NonPositiveAmount)
    );
    assert_eq!(
        check_amount(Some(PgDecimal { mantissa: -1, scale: 0 })),
        Err(ValidationError::NonPositiveAmount)
    );
    assert_eq!(
        check_amount(Some(PgDecimal { mantissa: 1, scale: 28 })),
        Ok(PgDecimal { mantissa: 1, scale: 28 })
    );
}

#[test]
fn decimal_parse_reads_sign_and_scale() {
    assert_eq!(PgDecimal::parse("-1.2345678"), Some(PgDecimal { mantissa: -12345678, scale: 7 }));
    assert_eq!(PgDecimal::parse("0"), Some(PgDecimal { mantissa: 0, scale: 0 }));
    assert_eq!(PgDecimal::parse("x"), None);
    assert!(PgDecimal { mantissa: 1, scale: 0 }.is_positive());
    assert!(!PgDecimal { mantissa: 0, scale: 0 }.is_positive());
    assert!(!PgDecimal { mantissa: -1, scale: 0 }.is_positive());
}

#[test]
fn decimal_parse_stays_within_96_bits() {
    assert_eq!(
        PgDecimal::parse("79228162514264337593543950335"),
        Some(PgDecimal { mantissa: 79228162514264337593543950335, scale: 0 })
    );
    assert_eq!(PgDecimal::parse("79228162514264337593543950336"), None);
}

#[test]
fn amount_in_scientific_notation_is_rejected() {
    assert_eq!(parse_amount("1e2"), Err(ValidationError::InvalidAmountFormat));
    assert_eq!(PgDecimal::parse("1e2"), Some(PgDecimal { mantissa: 100, scale: 0 }));
    assert_eq!(PgDecimal::parse_exact("1e2"), None);
}

#[test]
fn amount_with_more_digits_than_fit_is_rejected_not_rounded() {
    assert_eq!(
        parse_amount("0.00000000000000000000000000001"),
        Err(ValidationError::InvalidAmountFormat)
    );
    assert_eq!(
        parse_amount("0.0000000000000000000000000001"),
        Ok(PgDecimal { mantissa: 1, scale: 28 })
    );
    assert_eq!(
        PgDecimal::parse("0.00000000000000000000000000001"),
        Some(PgDecimal { mantissa: 0, scale: 28 })
    );
    assert_eq!(parse_amount("79228162514264337593543950336"), Err(ValidationError::InvalidAmountFormat));
}

#[test]
fn decimal_from_sql_reads_text_bytes() {
    assert_eq!(PgDecimal::from_sql(b"45.99"), Some(PgDecimal { mantissa: 4599, scale: 2 }));
    assert_eq!(PgDecimal::from_sql(b"abc"), None);
    assert_eq!(PgDecimal::from_sql(b""), None);
}

#[test]
fn decimal_from_sql_rejects_bytes_that_are_not_text() {
    assert_eq!(PgDecimal::from_sql(&[0x34, 0xff, 0x35]), None);
    assert_eq!(PgDecimal::from_sql(&[0xc3]), None);
}

fn dec(mantissa: i128, scale: u32) -> PgDecimal {
    PgDecimal { mantissa, scale }
}

#[test]
fn decimals_of_one_worth_are_the_same_value() {
    assert!(dec(350, 2).has_same_value(&dec(35, 1)));
    assert!(dec(35, 1).has_same_value(&dec(350, 2)));
    assert_ne!(dec(350, 2), dec(35, 1));
    assert!(dec(0, 0).has_same_value(&dec(0, 28)));
    assert!(dec(4599, 2).has_same_value(&dec(4599, 2)));
    assert!(dec(-10, 1).has_same_value(&dec(-1, 0)));
    assert!(dec(1, 0).has_same_value(&dec(10000000000000000000000000000, 28)));
}

#[test]
fn decimals_of_different_worth_are_not_the_same_value() {
    assert!(!dec(350, 2).has_same_value(&dec(351, 2)));
    assert!(!dec(350, 2).has_same_value(&dec(350, 1)));
    assert!(!dec(1, 0).has_same_value(&dec(-1, 0)));
    assert!(!dec(0, 0).has_same_value(&dec(1, 28)));
    assert!(!dec(79228162514264337593543950335, 0).has_same_value(&dec(1, 28)));
}

#[test]
fn decimals_are_ordered_by_worth() {
    assert!(dec(349, 2).is_below(&dec(35, 1)));
    assert!(!dec(35, 1).is_below(&dec(349, 2)));
    assert!(!dec(350, 2).is_below(&dec(35, 1)));
    assert!(!dec(35, 1).is_below(&dec(350, 2)));
    assert!(dec(5, 1).is_below(&dec(1, 0)));
    assert!(dec(1, 2).is_below(&dec(5, 1)));
    assert!(dec(-5, 1).is_below(&dec(-1, 2)));
    assert!(!dec(-1, 2).is_below(&dec(-5, 1)));
    assert!(dec(-1, 0).is_below(&dec(0, 5)));
    assert!(dec(0, 5).is_below(&dec(1, 28)));
    assert!(dec(1, 28).is_below(&dec(79228162514264337593543950335, 0)));
    assert!(dec(-79228162514264337593543950335, 0).is_below(&dec(-1, 28)));
    assert!(!dec(79228162514264337593543950335, 0).is_below(&dec(79228162514264337593543950335, 28)));
}

#[test]
fn decimal_bounds_are_checked() {
    assert!(dec(79228162514264337593543950335, 28).is_well_formed());
    assert!(dec(-79228162514264337593543950335, 0).is_well_formed());
    assert!(!dec(79228162514264337593543950336, 0).is_well_formed());
    assert!(!dec(-79228162514264337593543950336, 0).is_well_formed());
    assert!(!dec(1, 29).is_well_formed());
}
