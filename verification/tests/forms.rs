use enchiridion::cloud_storage::TmpFile;
use enchiridion::features::announcement::announcement_form;
use enchiridion::text::{int_error_text, parse_i32, parse_i32_kind, parse_i32_list, IntErrorKind};

fn staged() -> TmpFile {
    TmpFile::new("1700000000".to_string(), "png".to_string(), "announcement".to_string())
}

fn field(name: &str, value: &str) -> (String, String) {
    (name.to_string(), value.to_string())
}

fn complete() -> Vec<(String, String)> {
    vec![
        field("title", "Open house"),
        field("startDate", "2023-05-02"),
        field("endDate", "2023-05-09"),
        field("notes", "Lobby screens"),
        field("deviceIds", "3,1,3"),
    ]
}

#[test]
fn complete_form_reads() {
    let form = announcement_form(&complete(), Some(staged())).unwrap();
    assert_eq!(form.title, "Open house");
    assert_eq!(form.start_date.secs, 1682985600);
    assert_eq!(form.start_date.nanos, 0);
    assert_eq!(form.end_date.secs, 1683590400);
    assert_eq!(form.notes, "Lobby screens");
    assert_eq!(form.device_ids, vec![3, 1, 3]);
    assert_eq!(form.media.path, "./tmp/1700000000.png");
}

#[test]
fn later_field_replaces_earlier() {
    let mut fields = complete();
    fields.push(field("title", "Second"));
    let form = announcement_form(&fields, Some(staged())).unwrap();
    assert_eq!(form.title, "Second");
}

#[test]
fn unknown_field_is_ignored() {
    let mut fields = complete();
    fields.insert(2, field("colour", "not-a-date"));
    let form = announcement_form(&fields, Some(staged())).unwrap();
    assert_eq!(form.title, "Open house");
    assert_eq!(form.device_ids, vec![3, 1, 3]);
}

#[test]
fn missing_fields_are_reported_in_order() {
    assert_eq!(announcement_form(&Vec::new(), None).unwrap_err(), "title is required");
    let fields = vec![field("title", "t"), field("endDate", "2023-05-09")];
    assert_eq!(announcement_form(&fields, None).unwrap_err(), "startDate is required");
    let fields = vec![field("title", "t"), field("startDate", "2023-05-02")];
    assert_eq!(announcement_form(&fields, None).unwrap_err(), "endDate is required");
    let mut fields = complete();
    fields.remove(3);
    assert_eq!(announcement_form(&fields, Some(staged())).unwrap_err(), "notes is required");
    let mut fields = complete();
    fields.remove(4);
    assert_eq!(announcement_form(&fields, Some(staged())).unwrap_err(), "deviceIds is required");
    assert_eq!(announcement_form(&complete(), None).unwrap_err(), "media is required");
}

#[test]
fn empty_device_id_piece_is_refused() {
    let mut fields = complete();
    fields[4] = field("deviceIds", "1,,2");
    assert_eq!(
        announcement_form(&fields, Some(staged())).unwrap_err(),
        "cannot parse integer from empty string"
    );
    fields[4] = field("deviceIds", "1,x");
    assert_eq!(announcement_form(&fields, Some(staged())).unwrap_err(), "invalid digit found in string");
}

#[test]
fn unreadable_date_stops_the_form_before_missing_fields() {
    let fields = vec![field("startDate", "02-05-2023")];
    let err = announcement_form(&fields, None).unwrap_err();
    assert_ne!(err, "title is required");
    assert!(!err.is_empty());
}

#[test]
fn integers_read_with_the_kind_of_failure() {
    assert_eq!(parse_i32_kind("42"), Ok(42));
    assert_eq!(parse_i32_kind("-2147483648"), Ok(i32::MIN));
    assert_eq!(parse_i32_kind("+7"), Ok(7));
    assert_eq!(parse_i32_kind(""), Err(IntErrorKind::Empty));
    assert_eq!(parse_i32_kind("-"), Err(IntErrorKind::InvalidDigit));
    assert_eq!(parse_i32_kind("12a"), Err(IntErrorKind::InvalidDigit));
    assert_eq!(parse_i32_kind("2147483648"), Err(IntErrorKind::PosOverflow));
    assert_eq!(parse_i32_kind("-2147483649"), Err(IntErrorKind::NegOverflow));
    assert_eq!(parse_i32_kind("99999999999x"), Err(IntErrorKind::PosOverflow));
}

#[test]
fn integer_errors_read_as_std_prints_them() {
    for (text, kind) in [
        ("", IntErrorKind::Empty),
        ("a", IntErrorKind::InvalidDigit),
        ("9999999999", IntErrorKind::PosOverflow),
        ("-9999999999", IntErrorKind::NegOverflow),
    ] {
        let std_text = text.parse::<i32>().unwrap_err().to_string();
        assert_eq!(int_error_text(kind), std_text);
        assert_eq!(parse_i32_kind(text), Err(kind));
    }
}

#[test]
fn id_lists_keep_order_and_repeats() {
    assert_eq!(parse_i32_list("5,2,5").unwrap(), vec![5, 2, 5]);
    assert_eq!(parse_i32_list("").unwrap_err(), "cannot parse integer from empty string");
    assert_eq!(parse_i32_list("1, 2").unwrap_err(), "invalid digit found in string");
}

#[test]
fn both_integer_readers_agree() {
    for text in ["0", "-0", "+12", "2147483647", "2147483648", "-2147483648", "-2147483649", "", "-", "1a", " 1"] {
        assert_eq!(parse_i32(text), parse_i32_kind(text).ok());
        assert_eq!(parse_i32(text), text.parse::<i32>().ok());
    }
}
