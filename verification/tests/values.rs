use finance_tracker::docs::ApiDoc;
use finance_tracker::docs::NaiveDateSchema;
use finance_tracker::docs::NaiveDateTimeSchema;
use finance_tracker::docs::UuidSchema;
use finance_tracker::errors::AppError;
use finance_tracker::errors::ErrorKind;
use finance_tracker::errors::StoreError;
use finance_tracker::errors::ValidationError;
use finance_tracker::models::ident::RecordId;
use finance_tracker::models::time::Date;
use finance_tracker::models::time::Timestamp;
use finance_tracker::response::created;
use finance_tracker::response::ok;
use finance_tracker::text::char_is_whitespace;
use finance_tracker::text::clone_text;
use finance_tracker::text::str_contains_char;
use finance_tracker::text::str_is_blank;
use finance_tracker::text::trim;
use finance_tracker::validation::check_date;
use finance_tracker::validation::check_id;
use finance_tracker::validation::is_valid_email;
use finance_tracker::validation::is_valid_password;
use finance_tracker::validation::parse_date;
use finance_tracker::validation::parse_id;

#[test]
fn date_is_read_as_year_month_day() {
    assert_eq!(parse_date("2023-01-01"), Ok(Date { year: 2023, month: 1, day: 1 }));
    assert_eq!(parse_date("2024-02-29"), Ok(Date { year: 2024, month: 2, day: 29 }));
}

#[test]
fn date_that_does_not_exist_is_rejected() {
    assert_eq!(parse_date("2023-02-29"), Err(ValidationError::InvalidDate));
    assert_eq!(parse_date("2023-13-01"), Err(ValidationError::InvalidDate));
    assert_eq!(parse_date("2023-04-31"), Err(ValidationError::InvalidDate));
}

#[test]
fn date_that_is_no_date_is_rejected() {
    assert_eq!(parse_date(""), Err(ValidationError::InvalidDate));
    assert_eq!(parse_date("yesterday"), Err(ValidationError::InvalidDate));
    assert_eq!(parse_date("01/02/2023"), Err(ValidationError::InvalidDate));
}

#[test]
fn check_date_judges_what_was_read() {
    assert_eq!(check_date(None), Err(ValidationError::InvalidDate));
    let d = Date { year: 1999, month: 12, day: 31 };
    assert_eq!(check_date(Some(d)), Ok(d));
}

#[test]
fn dates_compare_by_year_then_month_then_day() {
    let a = Date { year: 2023, month: 3, day: 1 };
    let b = Date { year: 2023, month: 2, day: 28 };
    let c = Date { year: 2022, month: 12, day: 31 };
    let d = Date { year: 2023, month: 3, day: 2 };
    assert!(a.is_after(&b));
    assert!(b.is_after(&c));
    assert!(a.is_after(&c));
    assert!(d.is_after(&a));
    assert!(!b.is_after(&a));
    assert!(!a.is_after(&a));
    assert!(!a.is_after(&d));
}

#[test]
fn identifier_is_read_as_uuid() {
    assert_eq!(
        parse_id("550e8400-e29b-41d4-a716-446655440000"),
        Ok(RecordId(0x550e8400e29b41d4a716446655440000))
    );
    assert_eq!(
        parse_id("550e8400e29b41d4a716446655440000"),
        Ok(RecordId(0x550e8400e29b41d4a716446655440000))
    );
}

#[test]
fn identifier_that_is_no_uuid_is_rejected() {
    assert_eq!(parse_id(""), Err(ValidationError::InvalidIdentifier));
    assert_eq!(parse_id("42"), Err(ValidationError::InvalidIdentifier));
    assert_eq!(
        parse_id("550e8400-e29b-41d4-a716-44665544000g"),
        Err(ValidationError::InvalidIdentifier)
    );
}

#[test]
fn check_id_judges_what_was_read() {
    assert_eq!(check_id(None), Err(ValidationError::InvalidIdentifier));
    assert_eq!(check_id(Some(RecordId(7))), Ok(RecordId(7)));
}

#[test]
fn generated_identifiers_differ() {
    let a = RecordId::generate();
    let b = RecordId::generate();
    let c = RecordId::generate();
    assert_ne!(a, b);
    assert_ne!(b, c);
    assert_ne!(a, c);
}

#[test]
fn generated_identifiers_are_random_uuids() {
    let id = RecordId::generate();
    assert_eq!((id.0 >> 76) & 0xf, 4);
    assert_eq!((id.0 >> 62) & 0x3, 2);
}

#[test]
fn clock_gives_a_day_and_a_time_of_day() {
    let now = Timestamp::now();
    assert!(now.date.year >= 2024);
    assert!(1 <= now.date.month && now.date.month <= 12);
    assert!(1 <= now.date.day && now.date.day <= 31);
    assert!(now.seconds < 86_400);
    assert!(now.nanos < 2_000_000_000);
}

#[test]
fn clock_does_not_run_backwards_by_days() {
    let a = Timestamp::now();
    let b = Timestamp::now();
    assert!(!a.date.is_after(&b.date));
}

#[test]
fn white_space_characters() {
    for c in [' ', '\t', '\n', '\r', '\u{b}', '\u{c}', '\u{85}', '\u{a0}', '\u{1680}', '\u{2000}',
        '\u{200a}', '\u{2028}', '\u{2029}', '\u{202f}', '\u{205f}', '\u{3000}']
    {
        assert!(char_is_whitespace(c));
        assert!(c.is_whitespace());
    }
    for c in ['a', '0', '.', '\u{200b}', '\u{feff}', '\u{8}', '\u{e}', '\u{1f}'] {
        assert!(!char_is_whitespace(c));
        assert!(!c.is_whitespace());
    }
}

#[test]
fn white_space_agrees_with_the_standard_library_everywhere() {
    let mut n: u32 = 0;
    while n <= 0x10ffff {
        if let Some(c) = char::from_u32(n) {
            assert_eq!(char_is_whitespace(c), c.is_whitespace());
        }
        n += 1;
    }
}

#[test]
fn trim_removes_both_ends_only() {
    assert_eq!(trim("  a b  "), "a b");
    assert_eq!(trim("ab"), "ab");
    assert_eq!(trim(""), "");
    assert_eq!(trim(" \t\n"), "");
    assert_eq!(trim("\u{3000}\u{e9}t\u{e9} "), "\u{e9}t\u{e9}");
    assert_eq!(trim("x "), "x");
    assert_eq!(trim(" x"), "x");
}

#[test]
fn blank_texts() {
    assert!(str_is_blank(""));
    assert!(str_is_blank("  \t"));
    assert!(!str_is_blank(" a "));
    assert!(!str_is_blank("\u{200b}"));
}

#[test]
fn contains_char() {
    assert!(str_contains_char("a@b", '@'));
    assert!(!str_contains_char("ab", '@'));
    assert!(!str_contains_char("", '@'));
    assert!(str_contains_char("\u{e9}.", '.'));
}

#[test]
fn clone_text_copies() {
    assert_eq!(clone_text(&None), None);
    assert_eq!(clone_text(&Some("note".to_string())), Some("note".to_string()));
}

#[test]
fn email_needs_at_and_dot() {
    assert!(is_valid_email("john@example.com"));
    assert!(is_valid_email(".@"));
    assert!(!is_valid_email("john.example.com"));
    assert!(!is_valid_email("john@example"));
    assert!(!is_valid_email(""));
}

#[test]
fn password_needs_six_characters() {
    assert!(is_valid_password("123456"));
    assert!(is_valid_password("password123"));
    assert!(!is_valid_password("12345"));
    assert!(!is_valid_password(""));
    assert!(is_valid_password("\u{e9}\u{e9}\u{e9}\u{e9}\u{e9}\u{e9}"));
    assert!(!is_valid_password("\u{e9}\u{e9}\u{e9}"));
}

#[test]
fn every_validation_error_has_its_message() {
    assert_eq!(ValidationError::EmptySource.message(), "Source cannot be empty");
    assert_eq!(ValidationError::EmptyItemName.message(), "Item name cannot be empty");
    assert_eq!(ValidationError::EmptyFirstName.message(), "First name cannot be empty");
    assert_eq!(ValidationError::EmptyLastName.message(), "Last name cannot be empty");
    assert_eq!(ValidationError::InvalidEmail.message(), "Invalid email format");
    assert_eq!(
        ValidationError::PasswordTooShort.message(),
        "Password must be at least 6 characters long"
    );
    assert_eq!(ValidationError::InvalidDate.message(), "Invalid date format");
    assert_eq!(ValidationError::InvalidIdentifier.message(), "Invalid identifier format");
}

#[test]
fn error_kinds_and_statuses() {
    let v = AppError::Validation(ValidationError::InvalidEmail);
    assert_eq!(v.kind(), ErrorKind::Validation);
    assert_eq!(v.status_code(), 400);
    assert_eq!(v.message(), "Invalid email format");
    assert_eq!(AppError::NotFound.kind(), ErrorKind::NotFound);
    assert_eq!(AppError::NotFound.status_code(), 404);
    assert_eq!(AppError::NotFound.message(), "Record not found");
    assert_eq!(AppError::Internal.kind(), ErrorKind::Internal);
    assert_eq!(AppError::Internal.status_code(), 500);
    assert_eq!(AppError::Internal.message(), "Internal server error");
}

#[test]
fn error_envelope() {
    let r = AppError::Validation(ValidationError::EmptyAmount).error_response();
    assert_eq!(r.status, 400);
    assert_eq!(r.kind, ErrorKind::Validation);
    assert_eq!(r.message, "Amount cannot be empty");
    let n = AppError::NotFound.error_response();
    assert_eq!(n.status, 404);
    assert_eq!(n.kind, ErrorKind::NotFound);
    let i = AppError::Internal.error_response();
    assert_eq!(i.status, 500);
    assert_eq!(i.kind, ErrorKind::Internal);
    assert_eq!(i.message, "Internal server error");
}

#[test]
fn store_errors_are_classified() {
    assert_eq!(AppError::from(StoreError::NotFound), AppError::NotFound);
    assert_eq!(AppError::from(StoreError::Conflict), AppError::Internal);
    assert_eq!(AppError::from(StoreError::Unavailable), AppError::Internal);
    assert_eq!(
        AppError::from(ValidationError::InvalidDate),
        AppError::Validation(ValidationError::InvalidDate)
    );
}

#[test]
fn success_envelopes() {
    let a = ok(5u8);
    assert_eq!(a.status, 200);
    assert_eq!(a.data, 5);
    let b = created("x".to_string());
    assert_eq!(b.status, 201);
    assert_eq!(b.data, "x");
}

#[test]
fn interface_description() {
    assert_eq!(ApiDoc::title(), "Financial Management API");
    assert_eq!(ApiDoc::version(), "1.0.0");
    assert_eq!(ApiDoc::description(), "API for tracking personal income and expenses");
    let _ = UuidSchema::default();
    let _ = NaiveDateSchema::default();
    let _ = NaiveDateTimeSchema::default();
}
