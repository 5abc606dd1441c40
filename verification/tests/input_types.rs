use cbr_client::{
    DmyDate, InputError, IsoDateTime, ParentRef, Periodicity, PublicationId, Year, YearSpan,
};

#[test]
fn id_rejects_zero() {
    let error = PublicationId::new(0).unwrap_err();
    assert!(matches!(error, InputError::NonPositiveId { value: 0, .. }));
}

#[test]
fn id_rejects_negative() {
    let error = PublicationId::new(-1).unwrap_err();
    assert!(matches!(error, InputError::NonPositiveId { value: -1, .. }));
}

#[test]
fn id_accepts_positive() {
    assert_eq!(PublicationId::new(1).unwrap().get(), 1);
}

#[test]
fn parent_ref_accepts_root_and_positive_id() {
    let root = ParentRef::<PublicationId>::new(-1).unwrap();
    let parent = ParentRef::<PublicationId>::new(42).unwrap();

    assert!(matches!(root, ParentRef::Root));
    assert_eq!(parent.id(), Some(PublicationId::new(42).unwrap()));
}

#[test]
fn parent_ref_rejects_zero_and_negative_values() {
    let zero_error = ParentRef::<PublicationId>::new(0).unwrap_err();
    let negative_error = ParentRef::<PublicationId>::new(-2).unwrap_err();

    assert!(matches!(
        zero_error,
        InputError::InvalidParentRef { value: 0 }
    ));
    assert!(matches!(
        negative_error,
        InputError::InvalidParentRef { value: -2 }
    ));
}

#[test]
fn year_span_rejects_descending_range() {
    let start = Year::new(2026);
    let end = Year::new(2025);

    let error = YearSpan::new(start, end).unwrap_err();
    assert!(matches!(error, InputError::InvalidYearSpan { .. }));
}

#[test]
fn year_span_accepts_valid_range() {
    let span = YearSpan::new(Year::new(2020), Year::new(2025)).unwrap();

    assert_eq!(span.start().get(), 2020);
    assert_eq!(span.end().get(), 2025);
}

#[test]
fn chrono_conversion_roundtrip_for_iso_datetime() {
    let chrono_dt = chrono::NaiveDate::from_ymd_opt(2026, 3, 16)
        .unwrap()
        .and_hms_opt(12, 30, 45)
        .unwrap();

    let value = IsoDateTime::try_from_chrono(chrono_dt).unwrap();
    let roundtrip = value.try_to_chrono().unwrap();

    assert_eq!(roundtrip, chrono_dt);
}

#[test]
fn chrono_conversion_rejects_subseconds() {
    let chrono_dt = chrono::NaiveDate::from_ymd_opt(2026, 3, 16)
        .unwrap()
        .and_hms_milli_opt(12, 30, 45, 123)
        .unwrap();

    let error = IsoDateTime::try_from_chrono(chrono_dt).unwrap_err();
    assert!(matches!(error, InputError::ChronoSubsecondPrecision));
}

#[test]
fn chrono_conversion_roundtrip_for_dmy_date() {
    let chrono_date = chrono::NaiveDate::from_ymd_opt(2026, 3, 16).unwrap();

    let value = DmyDate::try_from_chrono(chrono_date).unwrap();
    let roundtrip = value.try_to_chrono().unwrap();

    assert_eq!(roundtrip, chrono_date);
}

#[test]
fn id_error_names_its_kind() {
    let error = cbr_client::DatasetId::new(-5).unwrap_err();
    assert_eq!(
        error,
        InputError::NonPositiveId {
            kind: "dataset_id",
            value: -5
        }
    );
}

#[test]
fn parent_ref_root_has_no_id() {
    let root = ParentRef::<PublicationId>::new(-1).unwrap();
    assert!(root.is_root());
    assert_eq!(root.id(), None);
    let parent = ParentRef::<PublicationId>::new(7).unwrap();
    assert!(!parent.is_root());
}

#[test]
fn year_span_accepts_single_year_and_reports_bounds() {
    let span = YearSpan::new(Year::new(2021), Year::new(2021)).unwrap();
    assert_eq!(span.start(), span.end());
    let error = YearSpan::new(Year::new(2026), Year::new(2025)).unwrap_err();
    assert_eq!(
        error,
        InputError::InvalidYearSpan {
            start: 2026,
            end: 2025
        }
    );
}

#[test]
fn iso_datetime_parses_and_formats() {
    let value = IsoDateTime::parse("2021-02-01T00:00:00").unwrap();
    assert_eq!(value.parts(), (2021, 2, 1, 0, 0, 0, 0));
    assert_eq!(value.to_iso_string(), "2021-02-01T00:00:00");
    assert!(IsoDateTime::parse("2021/08/01").is_err());
    assert!(IsoDateTime::parse("2021-02-30T00:00:00").is_err());
}

#[test]
fn dmy_date_parses_and_formats() {
    let value = DmyDate::parse("01.02.2021").unwrap();
    assert_eq!(value.parts(), (2021, 2, 1));
    assert_eq!(value.to_dmy_string(), "01.02.2021");
    assert!(DmyDate::parse("2021-02-01").is_err());
}

#[test]
fn iso_datetime_converts_to_and_from_time() {
    let value = IsoDateTime::parse("2024-02-29T23:59:58").unwrap();
    let primitive = value.get();
    assert_eq!(IsoDateTime::new(primitive), value);
    let date = DmyDate::parse("29.02.2024").unwrap();
    assert_eq!(DmyDate::new(date.get()), date);
}

#[test]
fn chrono_parts_out_of_time_range_are_refused() {
    assert_eq!(
        IsoDateTime::from_chrono_parts(10000, 1, 1, 0, 0, 0, 0),
        Err(InputError::ChronoOutOfRange { kind: "date" })
    );
    assert_eq!(
        IsoDateTime::from_chrono_parts(2021, 13, 1, 0, 0, 0, 0),
        Err(InputError::ChronoOutOfRange { kind: "month" })
    );
    assert_eq!(
        IsoDateTime::from_chrono_parts(2021, 1, 1, 0, 0, 0, 5),
        Err(InputError::ChronoSubsecondPrecision)
    );
    assert_eq!(
        IsoDateTime::from_chrono_parts(2021, 1, 1, 24, 0, 0, 0),
        Err(InputError::ChronoOutOfRange { kind: "time" })
    );
    assert_eq!(
        DmyDate::from_chrono_parts(2023, 2, 29),
        Err(InputError::ChronoOutOfRange { kind: "date" })
    );
    assert_eq!(
        DmyDate::from_chrono_parts(2024, 2, 29).unwrap().parts(),
        (2024, 2, 29)
    );
}

#[test]
fn periodicity_names_round_trip() {
    for p in [Periodicity::Month, Periodicity::Quarter, Periodicity::Year] {
        assert_eq!(Periodicity::from_text(p.as_str()), Some(p));
    }
    assert_eq!(Periodicity::Month.as_str(), "month");
    assert_eq!(Periodicity::from_text("weekly"), None);
    assert_eq!(Periodicity::from_text("Month"), None);
}

#[test]
fn dates_format_with_padding_and_sign_and_parse_back() {
    let early = IsoDateTime::from_parts((7, 3, 4, 5, 6, 9, 0));
    assert_eq!(early.to_iso_string(), "0007-03-04T05:06:09");
    assert_eq!(IsoDateTime::parse(&early.to_iso_string()).unwrap(), early);
    let negative = IsoDateTime::from_parts((-5, 12, 31, 23, 59, 59, 0));
    assert_eq!(negative.to_iso_string(), "-0005-12-31T23:59:59");
    assert_eq!(IsoDateTime::parse(&negative.to_iso_string()).unwrap(), negative);
    let date = DmyDate::from_parts((-44, 3, 15));
    assert_eq!(date.to_dmy_string(), "15.03.-0044");
    assert_eq!(DmyDate::parse(&date.to_dmy_string()).unwrap(), date);
    let date = DmyDate::from_parts((999, 1, 9));
    assert_eq!(date.to_dmy_string(), "09.01.0999");
    assert_eq!(DmyDate::parse(&date.to_dmy_string()).unwrap(), date);
}
