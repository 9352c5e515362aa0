use enchiridion::config::{parse_i32_setting, parse_i64_setting, ConfigError};
use enchiridion::database::{
    has_next, page_offset, paginate, total_pages, DatabaseError, StoreError, StoreErrorKind,
};
use enchiridion::email::EmailParams;
use enchiridion::text::{i32_to_string, i64_to_string, parse_i32, parse_i64, split_char, str_eq};
use enchiridion::time::{is_at_or_before, is_before, Timestamp};

#[test]
fn integers_are_written_in_decimal() {
    assert_eq!(i64_to_string(0), "0");
    assert_eq!(i64_to_string(-1234), "-1234");
    assert_eq!(i64_to_string(i64::MIN), "-9223372036854775808");
    assert_eq!(i32_to_string(i32::MAX), "2147483647");
}

#[test]
fn integers_are_read_as_str_parse_reads_them() {
    assert_eq!(parse_i64("+42"), Some(42));
    assert_eq!(parse_i64("-9223372036854775808"), Some(i64::MIN));
    assert_eq!(parse_i64("9223372036854775808"), None);
    assert_eq!(parse_i64(""), None);
    assert_eq!(parse_i64("-"), None);
    assert_eq!(parse_i64("1 2"), None);
    assert_eq!(parse_i32("2147483648"), None);
    assert_eq!(parse_i32("-2147483648"), Some(i32::MIN));
    assert_eq!(parse_i32(&i32_to_string(-77)), Some(-77));
}

#[test]
fn text_compares_and_splits() {
    assert!(str_eq("abc", "abc"));
    assert!(!str_eq("abc", "abd"));
    assert_eq!(split_char("a b  c", ' '), vec!["a", "b", "", "c"]);
    assert_eq!(split_char("", ' '), vec![""]);
}

#[test]
fn instants_are_ordered_by_seconds_then_nanoseconds() {
    let a = Timestamp::new(10, 5);
    let b = Timestamp::new(10, 6);
    assert!(is_before(a, b));
    assert!(!is_before(b, a));
    assert!(!is_before(a, a));
    assert!(is_at_or_before(a, a));
    assert!(is_at_or_before(Timestamp::new(9, 999), a));
}

#[test]
fn pages_are_counted_up() {
    assert_eq!(total_pages(51, 25), 3);
    assert_eq!(total_pages(50, 25), 2);
    assert_eq!(total_pages(0, 25), 0);
    assert!(has_next(1, 25, 51));
    assert!(has_next(2, 25, 51));
    assert!(!has_next(3, 25, 51));
    assert!(!has_next(1, 25, 0));
    assert_eq!(page_offset(3, 25), 50);
    let p = paginate(Some(51), 3, 25, vec![1, 2]);
    assert_eq!((p.count, p.total_pages, p.has_next), (51, 3, false));
    assert_eq!(p.contents, vec![1, 2]);
    let p = paginate::<i32>(None, 1, 25, vec![]);
    assert_eq!((p.count, p.total_pages, p.has_next), (0, 0, false));
}

#[test]
fn failed_queries_are_classified_by_sqlstate() {
    assert_eq!(DatabaseError::ForeignKeyError.to_string(), "23503");
    assert_eq!(DatabaseError::UniqueConstraintError.to_string(), "23505");
    assert_eq!(StoreError::RowNotFound.classify(), StoreErrorKind::NotFound);
    assert_eq!(StoreError::Database(Some("23503".to_string())).classify(), StoreErrorKind::ForeignKey);
    assert_eq!(StoreError::Database(Some("23505".to_string())).classify(), StoreErrorKind::UniqueViolation);
    assert_eq!(StoreError::Database(Some("40001".to_string())).classify(), StoreErrorKind::Internal);
    assert_eq!(StoreError::Database(None).classify(), StoreErrorKind::Internal);
    assert_eq!(StoreError::Other.classify(), StoreErrorKind::Internal);
}

#[test]
fn settings_are_read_as_integers() {
    assert_eq!(parse_i64_setting("3600"), Ok(3600));
    assert_eq!(parse_i64_setting("1h"), Err(ConfigError::ParsingError));
    assert_eq!(parse_i32_setting("-5"), Ok(-5));
    assert_eq!(parse_i32_setting("99999999999"), Err(ConfigError::ParsingError));
    assert_eq!(ConfigError::DevelopmentConfigError.to_string(), "An error occurred in the .env file");
    assert_eq!(
        ConfigError::DeploymentConfigError.to_string(),
        "An error occured in the system environment variable"
    );
    assert_eq!(ConfigError::ParsingError.to_string(), "Something went wrong when parsing an integer");
}

#[test]
fn default_email_is_empty() {
    let e = EmailParams::default();
    assert!(e.from.is_empty() && e.to.is_empty() && e.subject.is_empty() && e.html.is_empty());
}
