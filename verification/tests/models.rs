use cbr_client::models::zero_one_bool;
use cbr_client::text::parse_i32;
use cbr_client::{DatasetKind, DatasetReporting, SeriesType, SortKey};

#[test]
fn dataset_kind_codes_round_trip() {
    assert_eq!(DatasetKind::from_code(1), DatasetKind::Code1);
    assert_eq!(DatasetKind::from_code(2), DatasetKind::Code2);
    assert_eq!(DatasetKind::from_code(7), DatasetKind::Unknown(7));
    for code in [-3, 0, 1, 2, 3, 100] {
        assert_eq!(DatasetKind::from_code(code).code(), code);
    }
}

#[test]
fn series_type_codes_round_trip() {
    assert_eq!(SeriesType::from_code(3), SeriesType::Code3);
    assert_eq!(SeriesType::from_code(4), SeriesType::Unknown(4));
    for code in [-1, 0, 1, 2, 3, 4] {
        assert_eq!(SeriesType::from_code(code).code(), code);
    }
}

#[test]
fn reporting_reads_period_and_keeps_other_texts() {
    assert_eq!(DatasetReporting::from_text("period".to_owned()), DatasetReporting::Period);
    assert_eq!(DatasetReporting::Period.as_str(), "period");
    let other = DatasetReporting::from_text("month".to_owned());
    assert_eq!(other, DatasetReporting::Unknown("month".to_owned()));
    assert_eq!(other.as_str(), "month");
    assert_eq!(DatasetReporting::from_text("Period".to_owned()).as_str(), "Period");
}

#[test]
fn sort_key_from_string_number_is_numeric() {
    assert_eq!(SortKey::from_text("38".to_owned()), SortKey::Numeric(38));
    assert_eq!(SortKey::from_text("-7".to_owned()), SortKey::Numeric(-7));
    assert_eq!(SortKey::from_text("+7".to_owned()), SortKey::Numeric(7));
    assert_eq!(
        SortKey::from_text("a38".to_owned()),
        SortKey::Text("a38".to_owned())
    );
    assert_eq!(
        SortKey::from_text(" 38".to_owned()),
        SortKey::Text(" 38".to_owned())
    );
}

#[test]
fn sort_key_from_json_number_is_numeric() {
    assert_eq!(SortKey::from_integer(38), Some(SortKey::Numeric(38)));
    assert_eq!(SortKey::from_integer(-2147483648), Some(SortKey::Numeric(i32::MIN)));
    assert_eq!(SortKey::from_integer(2147483648), None);
    assert_eq!(SortKey::from_unsigned(38), Some(SortKey::Numeric(38)));
    assert_eq!(SortKey::from_unsigned(2147483648), None);
}

#[test]
fn sort_key_accessors_are_exclusive() {
    let numeric = SortKey::Numeric(5);
    assert_eq!(numeric.as_numeric(), Some(5));
    assert_eq!(numeric.as_text(), None);
    let text = SortKey::Text("x".to_owned());
    assert_eq!(text.as_numeric(), None);
    assert_eq!(text.as_text(), Some("x"));
}

#[test]
fn parse_i32_follows_std() {
    for text in [
        "0", "42", "-42", "+42", "2147483647", "-2147483648", "2147483648", "-2147483649", "",
        "-", "+", "1a", " 1", "1 ", "--1", "+-1", "00012", "99999999999999999999",
    ] {
        assert_eq!(parse_i32(text), text.parse::<i32>().ok(), "{text:?}");
    }
}

#[test]
fn zero_one_flag_accepts_only_zero_and_one() {
    assert_eq!(zero_one_bool(0), Some(false));
    assert_eq!(zero_one_bool(1), Some(true));
    assert_eq!(zero_one_bool(2), None);
    assert_eq!(zero_one_bool(-1), None);
}
