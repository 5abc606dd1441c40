use vstd::prelude::*;

use chrono::{Datelike, NaiveDate, NaiveDateTime, Timelike};
use time::{Date, Month, PrimitiveDateTime, Time};

use crate::types::InputError;

verus! {

#[verifier::external_type_specification]
#[verifier::external_body]
pub struct ExDate(Date);

#[verifier::external_type_specification]
#[verifier::external_body]
pub struct ExTime(Time);

#[verifier::external_type_specification]
#[verifier::external_body]
pub struct ExPrimitiveDateTime(PrimitiveDateTime);

#[verifier::external_type_specification]
#[verifier::external_body]
pub struct ExParse(time::error::Parse);

#[verifier::external_type_specification]
#[verifier::external_body]
pub struct ExNaiveDate(NaiveDate);

#[verifier::external_type_specification]
#[verifier::external_body]
pub struct ExNaiveDateTime(NaiveDateTime);

/// Format description of `YYYY-MM-DDTHH:MM:SS`.
pub const ISO_DATETIME_FORMAT: &'static str = "[year]-[month]-[day]T[hour]:[minute]:[second]";

/// Format description of `DD.MM.YYYY`.
pub const DMY_DATE_FORMAT: &'static str = "[day].[month].[year]";

/// Leap years of the proleptic Gregorian calendar.
pub open spec fn is_leap_year(year: int) -> bool {
    year % 4 == 0 && (year % 100 != 0 || year % 400 == 0)
}

/// The number of days of a month (1 to 12) of a year.
pub open spec fn days_in_month(year: int, month: int) -> int {
    if month == 2 {
        if is_leap_year(year) {
            29
        } else {
            28
        }
    } else if month == 4 || month == 6 || month == 9 || month == 11 {
        30
    } else {
        31
    }
}

/// A month and a day that exist in the year.
pub open spec fn valid_month_day(year: int, month: int, day: int) -> bool {
    1 <= month <= 12 && 1 <= day <= days_in_month(year, month)
}

/// A date that the `time` crate can hold: years `-9999..=9999`.
pub open spec fn time_valid_date(year: int, month: int, day: int) -> bool {
    -9999 <= year <= 9999 && valid_month_day(year, month, day)
}

/// A date that the `chrono` crate can hold: years `-262143..=262142`.
pub open spec fn chrono_valid_date(year: int, month: int, day: int) -> bool {
    -262143 <= year <= 262142 && valid_month_day(year, month, day)
}

/// A time of day with nanoseconds, leap seconds excluded.
pub open spec fn valid_time_of_day(hour: int, minute: int, second: int, nanosecond: int) -> bool {
    0 <= hour < 24 && 0 <= minute < 60 && 0 <= second < 60 && 0 <= nanosecond < 1_000_000_000
}

/// A time of day that `chrono` accepts: a nanosecond value from one second
/// on marks a leap second and is allowed on second 59 only.
pub open spec fn chrono_valid_time(hour: int, minute: int, second: int, nanosecond: int) -> bool {
    &&& 0 <= hour < 24 && 0 <= minute < 60 && 0 <= second < 60
    &&& nanosecond < 2_000_000_000
    &&& (nanosecond >= 1_000_000_000 ==> second == 59)
}

/// The ranges of a time of day that every `chrono` value keeps: hour,
/// minute and second in range, a nanosecond below two seconds.
pub open spec fn chrono_time_in_range(hour: int, minute: int, second: int, nanosecond: int) -> bool {
    0 <= hour < 24 && 0 <= minute < 60 && 0 <= second < 60 && 0 <= nanosecond < 2_000_000_000
}

/// Year, month, day, hour, minute, second and nanosecond.
pub type DateTimeParts = (i32, u8, u8, u8, u8, u8, u32);

/// Parts that form a date and time that the `time` crate can hold.
pub open spec fn valid_parts(p: DateTimeParts) -> bool {
    time_valid_date(p.0 as int, p.1 as int, p.2 as int) && valid_time_of_day(
        p.3 as int,
        p.4 as int,
        p.5 as int,
        p.6 as int,
    )
}

/// What the getters of a `time::Date` give: year, month number and day.
pub uninterp spec fn time_date_fields(value: Date) -> (i32, u8, u8);

/// What the getters of a `time::Time` give: hour, minute, second and nanosecond.
pub uninterp spec fn time_time_fields(value: Time) -> (u8, u8, u8, u32);

/// What the getters of a `time::PrimitiveDateTime` give: year, month number,
/// day, hour, minute, second and nanosecond.
pub uninterp spec fn time_date_time_fields(value: PrimitiveDateTime) -> DateTimeParts;

/// What the getters of a `chrono::NaiveDate` give: year, month and day.
pub uninterp spec fn chrono_date_fields(value: NaiveDate) -> (i32, u32, u32);

/// What the getters of a `chrono::NaiveDateTime` give: year, month, day,
/// hour, minute, second and nanosecond.
pub uninterp spec fn chrono_date_time_fields(value: NaiveDateTime) -> (i32, u32, u32, u32, u32, u32, u32);

/// What `PrimitiveDateTime::parse` gives for a text and a format description.
pub uninterp spec fn time_parse_date_time(text: Seq<char>, format: Seq<char>) -> Option<DateTimeParts>;

/// What `Date::parse` gives for a text and a format description.
pub uninterp spec fn time_parse_date(text: Seq<char>, format: Seq<char>) -> Option<(i32, u8, u8)>;

/// The decimal digit character of `d`, from 0 to 9.
pub open spec fn digit_char(d: int) -> char {
    (48 + d) as char
}

/// `n`, from 0 to 99, in two decimal digits.
pub open spec fn two_digit_text(n: int) -> Seq<char> {
    seq![digit_char(n / 10), digit_char(n % 10)]
}

/// `n`, from 0 to 9999, in four decimal digits.
pub open spec fn four_digit_text(n: int) -> Seq<char> {
    seq![digit_char(n / 1000), digit_char((n / 100) % 10), digit_char((n / 10) % 10), digit_char(n % 10)]
}

/// A year as `[year]` writes it: four digits, after a minus sign when the
/// year is negative.
pub open spec fn year_text(y: int) -> Seq<char> {
    if y < 0 {
        seq!['-'] + four_digit_text(-y)
    } else {
        four_digit_text(y)
    }
}

/// A date and time as `ISO_DATETIME_FORMAT` writes it: `YYYY-MM-DDTHH:MM:SS`.
pub open spec fn iso_text(p: DateTimeParts) -> Seq<char> {
    year_text(p.0 as int) + seq!['-'] + two_digit_text(p.1 as int) + seq!['-'] + two_digit_text(
        p.2 as int,
    ) + seq!['T'] + two_digit_text(p.3 as int) + seq![':'] + two_digit_text(p.4 as int) + seq![':']
        + two_digit_text(p.5 as int)
}

/// Distinct digits have distinct characters.
proof fn lemma_digit_char_injective(a: int, b: int)
    requires
        0 <= a <= 9,
        0 <= b <= 9,
        digit_char(a) == digit_char(b),
    ensures
        a == b,
{
    assert(digit_char(a) as int == 48 + a);
    assert(digit_char(b) as int == 48 + b);
}

/// Two numbers below 100 with the same two digits are equal.
proof fn lemma_two_digit_text_injective(n: int, m: int)
    requires
        0 <= n <= 99,
        0 <= m <= 99,
        two_digit_text(n) == two_digit_text(m),
    ensures
        n == m,
{
    assert(two_digit_text(n)[0] == two_digit_text(m)[0]);
    assert(two_digit_text(n)[1] == two_digit_text(m)[1]);
    lemma_digit_char_injective(n / 10, m / 10);
    lemma_digit_char_injective(n % 10, m % 10);
}

/// Two numbers below 10000 with the same four digits are equal.
proof fn lemma_four_digit_text_injective(n: int, m: int)
    requires
        0 <= n <= 9999,
        0 <= m <= 9999,
        four_digit_text(n) == four_digit_text(m),
    ensures
        n == m,
{
    assert(four_digit_text(n)[0] == four_digit_text(m)[0]);
    assert(four_digit_text(n)[1] == four_digit_text(m)[1]);
    assert(four_digit_text(n)[2] == four_digit_text(m)[2]);
    assert(four_digit_text(n)[3] == four_digit_text(m)[3]);
    lemma_digit_char_injective(n / 1000, m / 1000);
    lemma_digit_char_injective((n / 100) % 10, (m / 100) % 10);
    lemma_digit_char_injective((n / 10) % 10, (m / 10) % 10);
    lemma_digit_char_injective(n % 10, m % 10);
}

/// Two years of `-9999..=9999` with the same text are equal.
proof fn lemma_year_text_injective(y: int, z: int)
    requires
        -9999 <= y <= 9999,
        -9999 <= z <= 9999,
        year_text(y) == year_text(z),
    ensures
        y == z,
{
    if y < 0 && z < 0 {
        assert(four_digit_text(-y) =~= year_text(y).subrange(1, 5));
        assert(four_digit_text(-z) =~= year_text(z).subrange(1, 5));
        lemma_four_digit_text_injective(-y, -z);
    } else if y >= 0 && z >= 0 {
        lemma_four_digit_text_injective(y, z);
    } else {
        assert(year_text(y).len() != year_text(z).len());
    }
}

/// Two valid dates and times with no fraction of a second and the same
/// `iso_text` are equal.
proof fn lemma_iso_text_injective(p: DateTimeParts, q: DateTimeParts)
    requires
        valid_parts(p),
        valid_parts(q),
        p.6 == 0,
        q.6 == 0,
        iso_text(p) == iso_text(q),
    ensures
        p == q,
{
    let t = iso_text(p);
    let yp = year_text(p.0 as int);
    let yq = year_text(q.0 as int);
    assert(t.len() == yp.len() + 15);
    assert(t.len() == yq.len() + 15);
    let k = yp.len() as int;
    assert(yp =~= t.subrange(0, k));
    assert(yq =~= t.subrange(0, k));
    lemma_year_text_injective(p.0 as int, q.0 as int);
    assert(two_digit_text(p.1 as int) =~= t.subrange(k + 1, k + 3));
    assert(two_digit_text(q.1 as int) =~= t.subrange(k + 1, k + 3));
    lemma_two_digit_text_injective(p.1 as int, q.1 as int);
    assert(two_digit_text(p.2 as int) =~= t.subrange(k + 4, k + 6));
    assert(two_digit_text(q.2 as int) =~= t.subrange(k + 4, k + 6));
    lemma_two_digit_text_injective(p.2 as int, q.2 as int);
    assert(two_digit_text(p.3 as int) =~= t.subrange(k + 7, k + 9));
    assert(two_digit_text(q.3 as int) =~= t.subrange(k + 7, k + 9));
    lemma_two_digit_text_injective(p.3 as int, q.3 as int);
    assert(two_digit_text(p.4 as int) =~= t.subrange(k + 10, k + 12));
    assert(two_digit_text(q.4 as int) =~= t.subrange(k + 10, k + 12));
    lemma_two_digit_text_injective(p.4 as int, q.4 as int);
    assert(two_digit_text(p.5 as int) =~= t.subrange(k + 13, k + 15));
    assert(two_digit_text(q.5 as int) =~= t.subrange(k + 13, k + 15));
    lemma_two_digit_text_injective(p.5 as int, q.5 as int);
}

/// Two valid dates with the same `dmy_text` are equal.
proof fn lemma_dmy_text_injective(p: (i32, u8, u8), q: (i32, u8, u8))
    requires
        time_valid_date(p.0 as int, p.1 as int, p.2 as int),
        time_valid_date(q.0 as int, q.1 as int, q.2 as int),
        dmy_text(p) == dmy_text(q),
    ensures
        p == q,
{
    let t = dmy_text(p);
    assert(two_digit_text(p.2 as int) =~= t.subrange(0, 2));
    assert(two_digit_text(q.2 as int) =~= t.subrange(0, 2));
    lemma_two_digit_text_injective(p.2 as int, q.2 as int);
    assert(two_digit_text(p.1 as int) =~= t.subrange(3, 5));
    assert(two_digit_text(q.1 as int) =~= t.subrange(3, 5));
    lemma_two_digit_text_injective(p.1 as int, q.1 as int);
    assert(year_text(p.0 as int) =~= t.subrange(6, t.len() as int));
    assert(year_text(q.0 as int) =~= t.subrange(6, t.len() as int));
    lemma_year_text_injective(p.0 as int, q.0 as int);
}

/// A text that `iso_text` writes of a valid date and time with no fraction
/// of a second gives a parse result that `iso_text` writes back to the text.
pub open spec fn parses_back_iso<E>(text: Seq<char>, r: Result<DateTimeParts, E>) -> bool {
    (exists|p: DateTimeParts|
        #![trigger iso_text(p)]
        valid_parts(p) && p.6 == 0 && text == iso_text(p)) ==> (r matches Ok(q) && text == iso_text(q))
}

/// A text that `dmy_text` writes of a valid date gives a parse result that
/// `dmy_text` writes back to the text.
pub open spec fn parses_back_dmy<E>(text: Seq<char>, r: Result<(i32, u8, u8), E>) -> bool {
    (exists|p: (i32, u8, u8)|
        #![trigger dmy_text(p)]
        time_valid_date(p.0 as int, p.1 as int, p.2 as int) && text == dmy_text(p)) ==> (r matches Ok(
        q,
    ) && text == dmy_text(q))
}

/// A date as `DMY_DATE_FORMAT` writes it: `DD.MM.YYYY`.
pub open spec fn dmy_text(p: (i32, u8, u8)) -> Seq<char> {
    two_digit_text(p.2 as int) + seq!['.'] + two_digit_text(p.1 as int) + seq!['.'] + year_text(
        p.0 as int,
    )
}

/// `time::Date::from_calendar_date` (with `time::Month::try_from` on the
/// month number): a date exactly when the year is in `-9999..=9999`, the
/// month in `1..=12` and the day exists in that month; its year, month and
/// day are then the ones given.
#[verifier::external_body]
fn time_date_from_calendar_date(year: i32, month: u8, day: u8) -> (r: Option<Date>)
    ensures
        r is Some <==> time_valid_date(year as int, month as int, day as int),
        r matches Some(d) ==> time_date_fields(d) == (year, month, day),
{
    match Month::try_from(month) {
        Ok(month) => Date::from_calendar_date(year, month, day).ok(),
        Err(_) => None,
    }
}

/// `time::Time::from_hms_nano`: a time exactly when hour, minute, second and
/// nanosecond are in range; its hour, minute, second and nanosecond are then
/// the ones given.
#[verifier::external_body]
fn time_time_from_hms_nano(hour: u8, minute: u8, second: u8, nanosecond: u32) -> (r: Option<Time>)
    ensures
        r is Some <==> valid_time_of_day(hour as int, minute as int, second as int, nanosecond as int),
        r matches Some(t) ==> time_time_fields(t) == (hour, minute, second, nanosecond),
{
    Time::from_hms_nano(hour, minute, second, nanosecond).ok()
}

/// `time::PrimitiveDateTime::new`: the date and time whose date part is
/// `date` and whose time part is `time`.
#[verifier::external_body]
fn time_primitive_date_time_new(date: Date, time: Time) -> (r: PrimitiveDateTime)
    ensures
        time_date_time_fields(r) == (
            time_date_fields(date).0,
            time_date_fields(date).1,
            time_date_fields(date).2,
            time_time_fields(time).0,
            time_time_fields(time).1,
            time_time_fields(time).2,
            time_time_fields(time).3,
        ),
{
    PrimitiveDateTime::new(date, time)
}

/// The getters of `time::PrimitiveDateTime`: year, month number, day, hour,
/// minute, second and nanosecond. Stated: they are `time_date_time_fields`
/// of the value, and they form a valid date and time, as every
/// `PrimitiveDateTime` does.
#[verifier::external_body]
fn time_primitive_date_time_parts(value: &PrimitiveDateTime) -> (r: DateTimeParts)
    ensures
        r == time_date_time_fields(*value),
        valid_parts(r),
{
    (
        value.year(),
        u8::from(value.month()),
        value.day(),
        value.hour(),
        value.minute(),
        value.second(),
        value.nanosecond(),
    )
}

/// The getters of `time::Date`: year, month number and day. Stated: they
/// are `time_date_fields` of the value and form a valid date, as every
/// `Date` does.
#[verifier::external_body]
fn time_date_parts(value: &Date) -> (r: (i32, u8, u8))
    ensures
        r == time_date_fields(*value),
        time_valid_date(r.0 as int, r.1 as int, r.2 as int),
{
    (value.year(), u8::from(value.month()), value.day())
}

/// `time::PrimitiveDateTime::parse` with the format description of
/// `ISO_DATETIME_FORMAT`. Stated: the result is `time_parse_date_time` of
/// the text and the description, a parsed value is a valid date and time
/// with no fraction of a second, and the text that `iso_text` writes of such
/// a value parses back to it.
#[verifier::external_body]
#[allow(deprecated)]
fn time_parse_primitive_date_time(text: &str, format: &str) -> (r: Result<DateTimeParts, time::error::Parse>)
    requires
        format@ == ISO_DATETIME_FORMAT@,
    ensures
        r is Ok <==> time_parse_date_time(text@, format@) is Some,
        r matches Ok(p) ==> Some(p) == time_parse_date_time(text@, format@) && valid_parts(p)
            && p.6 == 0,
        parses_back_iso(text@, r),
{
    let items = time::format_description::parse(format).expect("the format description is valid");
    let v = PrimitiveDateTime::parse(text, &items)?;
    Ok((v.year(), u8::from(v.month()), v.day(), v.hour(), v.minute(), v.second(), v.nanosecond()))
}

/// `time::Date::parse` with the format description of `DMY_DATE_FORMAT`.
/// Stated: the result is `time_parse_date` of the text and the description,
/// a parsed value is a valid date, and the text that `dmy_text` writes of a
/// valid date parses back to it.
#[verifier::external_body]
#[allow(deprecated)]
fn time_parse_date_parts(text: &str, format: &str) -> (r: Result<(i32, u8, u8), time::error::Parse>)
    requires
        format@ == DMY_DATE_FORMAT@,
    ensures
        r is Ok <==> time_parse_date(text@, format@) is Some,
        r matches Ok(p) ==> Some(p) == time_parse_date(text@, format@) && time_valid_date(
            p.0 as int,
            p.1 as int,
            p.2 as int,
        ),
        parses_back_dmy(text@, r),
{
    let items = time::format_description::parse(format).expect("the format description is valid");
    let v = Date::parse(text, &items)?;
    Ok((v.year(), u8::from(v.month()), v.day()))
}

/// `time::PrimitiveDateTime::format` of the date and time with the given
/// parts and the format description of `ISO_DATETIME_FORMAT`: each field
/// zero-padded, the year to four digits after a minus sign when negative,
/// and no fraction of a second. It cannot fail on a valid value.
#[verifier::external_body]
#[allow(deprecated)]
fn time_format_primitive_date_time(parts: DateTimeParts, format: &str) -> (r: String)
    requires
        format@ == ISO_DATETIME_FORMAT@,
        valid_parts(parts),
    ensures
        r@ == iso_text(parts),
{
    let items = time::format_description::parse(format).expect("the format description is valid");
    let date = Date::from_calendar_date(parts.0, Month::try_from(parts.1).expect("valid month"), parts.2)
        .expect("valid date");
    let time = Time::from_hms_nano(parts.3, parts.4, parts.5, parts.6).expect("valid time");
    PrimitiveDateTime::new(date, time).format(&items).expect("a valid value formats")
}

/// `time::Date::format` of the date with the given parts and the format
/// description of `DMY_DATE_FORMAT`: day and month in two digits, the year
/// in four after a minus sign when negative. It cannot fail on a valid date.
#[verifier::external_body]
#[allow(deprecated)]
fn time_format_date_parts(parts: (i32, u8, u8), format: &str) -> (r: String)
    requires
        format@ == DMY_DATE_FORMAT@,
        time_valid_date(parts.0 as int, parts.1 as int, parts.2 as int),
    ensures
        r@ == dmy_text(parts),
{
    let items = time::format_description::parse(format).expect("the format description is valid");
    let date = Date::from_calendar_date(parts.0, Month::try_from(parts.1).expect("valid month"), parts.2)
        .expect("valid date");
    date.format(&items).expect("a valid date formats")
}

/// The getters of `chrono::NaiveDateTime` (`Datelike` and `Timelike`):
/// year, month, day, hour, minute, second and nanosecond. Stated: that
/// they are `chrono_date_time_fields` of the value, and the ranges that
/// chrono guarantees of every value (a nanosecond below two seconds, on any
/// second).
#[verifier::external_body]
fn chrono_date_time_parts(value: &NaiveDateTime) -> (r: (i32, u32, u32, u32, u32, u32, u32))
    ensures
        r == chrono_date_time_fields(*value),
        chrono_valid_date(r.0 as int, r.1 as int, r.2 as int),
        chrono_time_in_range(r.3 as int, r.4 as int, r.5 as int, r.6 as int),
{
    (
        value.year(),
        value.month(),
        value.day(),
        value.hour(),
        value.minute(),
        value.second(),
        value.nanosecond(),
    )
}

/// The getters of `chrono::NaiveDate` (`Datelike`): year, month and day.
/// Stated: they are `chrono_date_fields` of the value and form a date in
/// chrono's range.
#[verifier::external_body]
fn chrono_date_parts(value: &NaiveDate) -> (r: (i32, u32, u32))
    ensures
        r == chrono_date_fields(*value),
        chrono_valid_date(r.0 as int, r.1 as int, r.2 as int),
{
    (value.year(), value.month(), value.day())
}

/// `chrono::NaiveDate::from_ymd_opt`: a date exactly when it exists in
/// chrono's range; its year, month and day are then the ones given.
#[verifier::external_body]
fn chrono_date_from_ymd(year: i32, month: u32, day: u32) -> (r: Option<NaiveDate>)
    ensures
        r is Some <==> chrono_valid_date(year as int, month as int, day as int),
        r matches Some(d) ==> chrono_date_fields(d) == (year, month, day),
{
    NaiveDate::from_ymd_opt(year, month, day)
}

/// `chrono::NaiveDate::and_hms_nano_opt`: a date and time exactly when the
/// time of day is one that chrono accepts; its date is `date` and its hour,
/// minute, second and nanosecond are the ones given.
#[verifier::external_body]
fn chrono_date_and_hms_nano(date: &NaiveDate, hour: u32, minute: u32, second: u32, nanosecond: u32) -> (r: Option<NaiveDateTime>)
    ensures
        r is Some <==> chrono_valid_time(hour as int, minute as int, second as int, nanosecond as int),
        r matches Some(v) ==> chrono_date_time_fields(v) == (
            chrono_date_fields(*date).0,
            chrono_date_fields(*date).1,
            chrono_date_fields(*date).2,
            hour,
            minute,
            second,
            nanosecond,
        ),
{
    date.and_hms_nano_opt(hour, minute, second, nanosecond)
}

/// The month of `time` that a month number of `chrono` stands for.
pub fn chrono_month_to_time(value: u32) -> (r: Result<u8, InputError>)
    ensures
        r is Ok <==> 1 <= value <= 12,
        r matches Ok(m) ==> m == value,
        r matches Err(e) ==> e == (InputError::ChronoOutOfRange { kind: "month" }),
{
    if value < 1 || value > 12 {
        Err(InputError::ChronoOutOfRange { kind: "month" })
    } else {
        Ok(value as u8)
    }
}

/// The outcome of converting a `chrono::NaiveDateTime` with the given
/// year, month, day, hour, minute, second and nanosecond: sub-second
/// precision is refused first, then each part that does not fit, in order.
pub open spec fn iso_from_chrono_fields(p: (i32, u32, u32, u32, u32, u32, u32)) -> Result<
    DateTimeParts,
    InputError,
> {
    if p.6 != 0 {
        Err(InputError::ChronoSubsecondPrecision)
    } else if !(1 <= p.1 <= 12) {
        Err(InputError::ChronoOutOfRange { kind: "month" })
    } else if p.2 > 255 {
        Err(InputError::ChronoOutOfRange { kind: "day" })
    } else if !time_valid_date(p.0 as int, p.1 as int, p.2 as int) {
        Err(InputError::ChronoOutOfRange { kind: "date" })
    } else if p.3 > 255 {
        Err(InputError::ChronoOutOfRange { kind: "hour" })
    } else if p.4 > 255 {
        Err(InputError::ChronoOutOfRange { kind: "minute" })
    } else if p.5 > 255 {
        Err(InputError::ChronoOutOfRange { kind: "second" })
    } else if !valid_time_of_day(p.3 as int, p.4 as int, p.5 as int, 0) {
        Err(InputError::ChronoOutOfRange { kind: "time" })
    } else {
        Ok((p.0, p.1 as u8, p.2 as u8, p.3 as u8, p.4 as u8, p.5 as u8, 0u32))
    }
}

/// The outcome of converting a `chrono::NaiveDate` with the given year,
/// month and day.
pub open spec fn dmy_from_chrono_fields(p: (i32, u32, u32)) -> Result<(i32, u8, u8), InputError> {
    if !(1 <= p.1 <= 12) {
        Err(InputError::ChronoOutOfRange { kind: "month" })
    } else if p.2 > 255 {
        Err(InputError::ChronoOutOfRange { kind: "day" })
    } else if !time_valid_date(p.0 as int, p.1 as int, p.2 as int) {
        Err(InputError::ChronoOutOfRange { kind: "date" })
    } else {
        Ok((p.0, p.1 as u8, p.2 as u8))
    }
}

/// The parts of a date and time as `chrono` gives them.
pub open spec fn chrono_fields_of_parts(q: DateTimeParts) -> (i32, u32, u32, u32, u32, u32, u32) {
    (q.0, q.1 as u32, q.2 as u32, q.3 as u32, q.4 as u32, q.5 as u32, q.6)
}

/// The parts of a date as `chrono` gives them.
pub open spec fn chrono_fields_of_date(q: (i32, u8, u8)) -> (i32, u32, u32) {
    (q.0, q.1 as u32, q.2 as u32)
}

/// Every `chrono` date and time with whole seconds, whose date the `time`
/// crate holds, converts, keeping its year, month, day, hour, minute and
/// second.
pub proof fn law_iso_from_chrono_accepts_whole_seconds(p: (i32, u32, u32, u32, u32, u32, u32))
    requires
        p.6 == 0,
        -9999 <= p.0 <= 9999,
        1 <= p.1 <= 12,
        1 <= p.2 <= days_in_month(p.0 as int, p.1 as int),
        p.3 < 24,
        p.4 < 60,
        p.5 < 60,
    ensures
        iso_from_chrono_fields(p) == Ok::<DateTimeParts, InputError>(
            (p.0, p.1 as u8, p.2 as u8, p.3 as u8, p.4 as u8, p.5 as u8, 0u32),
        ),
{
}

/// A `chrono` date and time converts exactly when it has whole seconds and
/// its date and time of day are ones the `time` crate holds; a fraction of
/// a second is always refused first.
pub proof fn law_iso_from_chrono_accepts_exactly(p: (i32, u32, u32, u32, u32, u32, u32))
    ensures
        iso_from_chrono_fields(p) is Ok <==> p.6 == 0 && time_valid_date(p.0 as int, p.1 as int, p.2 as int)
            && p.3 < 24 && p.4 < 60 && p.5 < 60,
        p.6 != 0 ==> iso_from_chrono_fields(p) == Err::<DateTimeParts, InputError>(
            InputError::ChronoSubsecondPrecision,
        ),
{
}

/// Every `chrono` date that the `time` crate holds converts, keeping its
/// year, month and day.
pub proof fn law_dmy_from_chrono_accepts_time_dates(p: (i32, u32, u32))
    requires
        -9999 <= p.0 <= 9999,
        1 <= p.1 <= 12,
        1 <= p.2 <= days_in_month(p.0 as int, p.1 as int),
    ensures
        dmy_from_chrono_fields(p) == Ok::<(i32, u8, u8), InputError>((p.0, p.1 as u8, p.2 as u8)),
{
}

/// A `chrono` date and time that converts gives, converted back, the same
/// year, month, day, hour, minute, second and nanosecond.
pub proof fn law_iso_chrono_round_trip(p: (i32, u32, u32, u32, u32, u32, u32))
    requires
        iso_from_chrono_fields(p) is Ok,
    ensures
        chrono_fields_of_parts(iso_from_chrono_fields(p)->Ok_0) == p,
{
}

/// A `chrono` date that converts gives, converted back, the same year,
/// month and day.
pub proof fn law_dmy_chrono_round_trip(p: (i32, u32, u32))
    requires
        dmy_from_chrono_fields(p) is Ok,
    ensures
        chrono_fields_of_date(dmy_from_chrono_fields(p)->Ok_0) == p,
{
}

/// A conversion result with the date and time taken by its parts.
pub open spec fn iso_result_parts(r: Result<IsoDateTime, InputError>) -> Result<DateTimeParts, InputError> {
    match r {
        Ok(v) => Ok(v@),
        Err(e) => Err(e),
    }
}

/// A conversion result with the date taken by its parts.
pub open spec fn dmy_result_parts(r: Result<DmyDate, InputError>) -> Result<(i32, u8, u8), InputError> {
    match r {
        Ok(v) => Ok(v@),
        Err(e) => Err(e),
    }
}

/// Date and time in the format `YYYY-MM-DDTHH:MM:SS`.
#[derive(Debug, Clone, Copy, PartialEq, Eq, PartialOrd, Ord, Hash)]
pub struct IsoDateTime {
    year: i32,
    month: u8,
    day: u8,
    hour: u8,
    minute: u8,
    second: u8,
    nanosecond: u32,
}

impl View for IsoDateTime {
    type V = DateTimeParts;

    closed spec fn view(&self) -> DateTimeParts {
        (self.year, self.month, self.day, self.hour, self.minute, self.second, self.nanosecond)
    }
}

impl IsoDateTime {
    #[verifier::type_invariant]
    closed spec fn well_formed(self) -> bool {
        valid_parts(self@)
    }

    /// The date and time with the given parts, which must be valid.
    pub fn from_parts(parts: DateTimeParts) -> (r: Self)
        requires
            valid_parts(parts),
        ensures
            r@ == parts,
    {
        IsoDateTime {
            year: parts.0,
            month: parts.1,
            day: parts.2,
            hour: parts.3,
            minute: parts.4,
            second: parts.5,
            nanosecond: parts.6,
        }
    }

    /// The parts of the date and time, which are valid.
    pub fn parts(self) -> (r: DateTimeParts)
        ensures
            r == self@,
            valid_parts(r),
    {
        proof { use_type_invariant(&self); }
        (self.year, self.month, self.day, self.hour, self.minute, self.second, self.nanosecond)
    }

    /// Creates a value from a `time::PrimitiveDateTime`.
    pub fn new(value: PrimitiveDateTime) -> (r: Self)
        ensures
            r@ == time_date_time_fields(value),
            valid_parts(r@),
    {
        Self::from_parts(time_primitive_date_time_parts(&value))
    }

    /// Parses a text of the form `YYYY-MM-DDTHH:MM:SS`.
    pub fn parse(value: &str) -> (r: Result<Self, time::error::Parse>)
        ensures
            r is Ok <==> time_parse_date_time(value@, ISO_DATETIME_FORMAT@) is Some,
            r matches Ok(v) ==> Some(v@) == time_parse_date_time(value@, ISO_DATETIME_FORMAT@)
                && valid_parts(v@) && v@.6 == 0,
            forall|p: DateTimeParts|
                #![trigger iso_text(p)]
                valid_parts(p) && p.6 == 0 && value@ == iso_text(p) ==> (r matches Ok(v) && v@ == p),
    {
        let r = time_parse_primitive_date_time(value, ISO_DATETIME_FORMAT);
        proof {
            assert forall|p: DateTimeParts|
                #![trigger iso_text(p)]
                valid_parts(p) && p.6 == 0 && value@ == iso_text(p) implies (r matches Ok(q) && q
                == p) by {
                if let Ok(q) = r {
                    lemma_iso_text_injective(p, q);
                }
            }
        }
        match r {
            Ok(parts) => Ok(Self::from_parts(parts)),
            Err(e) => Err(e),
        }
    }

    /// The value as a `time::PrimitiveDateTime`.
    pub fn get(self) -> (r: PrimitiveDateTime)
        ensures
            time_date_time_fields(r) == self@,
    {
        proof { use_type_invariant(&self); }
        let date = time_date_from_calendar_date(self.year, self.month, self.day);
        let time = time_time_from_hms_nano(self.hour, self.minute, self.second, self.nanosecond);
        match (date, time) {
            (Some(date), Some(time)) => time_primitive_date_time_new(date, time),
            _ => {
                proof {
                    assert(false);
                }
                time_primitive_date_time_new(date.unwrap(), time.unwrap())
            },
        }
    }

    /// The text `YYYY-MM-DDTHH:MM:SS` of the value, as its `Display` writes it.
    pub fn to_iso_string(&self) -> (r: String)
        ensures
            r@ == iso_text(self@),
    {
        time_format_primitive_date_time(self.parts(), ISO_DATETIME_FORMAT)
    }

    /// The value of the parts of a `chrono::NaiveDateTime`: sub-second
    /// precision is refused, then a date or time that `time` cannot hold.
    pub fn from_chrono_parts(
        year: i32,
        month: u32,
        day: u32,
        hour: u32,
        minute: u32,
        second: u32,
        nanosecond: u32,
    ) -> (r: Result<Self, InputError>)
        ensures
            nanosecond != 0 ==> r == Err::<Self, InputError>(InputError::ChronoSubsecondPrecision),
            nanosecond == 0 && !(1 <= month <= 12) ==> r == Err::<Self, InputError>(
                InputError::ChronoOutOfRange { kind: "month" },
            ),
            nanosecond == 0 && 1 <= month <= 12 && day > 255 ==> r == Err::<Self, InputError>(
                InputError::ChronoOutOfRange { kind: "day" },
            ),
            nanosecond == 0 && 1 <= month <= 12 && day <= 255 && !time_valid_date(
                year as int,
                month as int,
                day as int,
            ) ==> r == Err::<Self, InputError>(InputError::ChronoOutOfRange { kind: "date" }),
            nanosecond == 0 && time_valid_date(year as int, month as int, day as int) && hour > 255
                ==> r == Err::<Self, InputError>(InputError::ChronoOutOfRange { kind: "hour" }),
            nanosecond == 0 && time_valid_date(year as int, month as int, day as int) && hour <= 255
                && minute > 255 ==> r == Err::<Self, InputError>(
                InputError::ChronoOutOfRange { kind: "minute" },
            ),
            nanosecond == 0 && time_valid_date(year as int, month as int, day as int) && hour <= 255
                && minute <= 255 && second > 255 ==> r == Err::<Self, InputError>(
                InputError::ChronoOutOfRange { kind: "second" },
            ),
            nanosecond == 0 && time_valid_date(year as int, month as int, day as int) && hour <= 255
                && minute <= 255 && second <= 255 && !valid_time_of_day(
                hour as int,
                minute as int,
                second as int,
                0,
            ) ==> r == Err::<Self, InputError>(InputError::ChronoOutOfRange { kind: "time" }),
            nanosecond == 0 && time_valid_date(year as int, month as int, day as int)
                && valid_time_of_day(hour as int, minute as int, second as int, 0) ==> (r matches Ok(
                v,
            ) && v@ == (year, month as u8, day as u8, hour as u8, minute as u8, second as u8, 0u32)),
    {
        if nanosecond != 0 {
            return Err(InputError::ChronoSubsecondPrecision);
        }
        let month = match chrono_month_to_time(month) {
            Ok(m) => m,
            Err(e) => return Err(e),
        };
        if day > 255 {
            return Err(InputError::ChronoOutOfRange { kind: "day" });
        }
        let day = day as u8;
        if time_date_from_calendar_date(year, month, day).is_none() {
            return Err(InputError::ChronoOutOfRange { kind: "date" });
        }
        if hour > 255 {
            return Err(InputError::ChronoOutOfRange { kind: "hour" });
        }
        if minute > 255 {
            return Err(InputError::ChronoOutOfRange { kind: "minute" });
        }
        if second > 255 {
            return Err(InputError::ChronoOutOfRange { kind: "second" });
        }
        let (hour, minute, second) = (hour as u8, minute as u8, second as u8);
        if time_time_from_hms_nano(hour, minute, second, 0).is_none() {
            return Err(InputError::ChronoOutOfRange { kind: "time" });
        }
        Ok(Self::from_parts((year, month, day, hour, minute, second, 0)))
    }

    /// Converts a `chrono::NaiveDateTime`.
    pub fn try_from_chrono(value: NaiveDateTime) -> (r: Result<Self, InputError>)
        ensures
            iso_result_parts(r) == iso_from_chrono_fields(chrono_date_time_fields(value)),
            r matches Ok(v) ==> valid_parts(v@) && v@.6 == 0,
    {
        let p = chrono_date_time_parts(&value);
        let r = Self::from_chrono_parts(p.0, p.1, p.2, p.3, p.4, p.5, p.6);
        match r {
            Ok(v) => {
                proof { use_type_invariant(&v); }
                Ok(v)
            },
            Err(e) => Err(e),
        }
    }

    /// Converts to a `chrono::NaiveDateTime`: the date must be in chrono's
    /// range, which holds of every value here.
    pub fn try_to_chrono(self) -> (r: Result<NaiveDateTime, InputError>)
        ensures
            r is Ok <==> chrono_valid_date(self@.0 as int, self@.1 as int, self@.2 as int),
            r matches Err(e) ==> e == (InputError::ChronoOutOfRange { kind: "date" }),
            r matches Ok(v) ==> chrono_date_time_fields(v) == chrono_fields_of_parts(self@),
    {
        proof { use_type_invariant(&self); }
        let date = match chrono_date_from_ymd(self.year, self.month as u32, self.day as u32) {
            Some(d) => d,
            None => return Err(InputError::ChronoOutOfRange { kind: "date" }),
        };
        match chrono_date_and_hms_nano(
            &date,
            self.hour as u32,
            self.minute as u32,
            self.second as u32,
            self.nanosecond,
        ) {
            Some(v) => Ok(v),
            None => Err(InputError::ChronoOutOfRange { kind: "datetime" }),
        }
    }
}

/// Calendar date in the format `DD.MM.YYYY`.
#[derive(Debug, Clone, Copy, PartialEq, Eq, PartialOrd, Ord, Hash)]
pub struct DmyDate {
    year: i32,
    month: u8,
    day: u8,
}

impl View for DmyDate {
    type V = (i32, u8, u8);

    closed spec fn view(&self) -> (i32, u8, u8) {
        (self.year, self.month, self.day)
    }
}

impl DmyDate {
    #[verifier::type_invariant]
    closed spec fn well_formed(self) -> bool {
        time_valid_date(self.year as int, self.month as int, self.day as int)
    }

    /// The date with the given year, month and day, which must be valid.
    pub fn from_parts(parts: (i32, u8, u8)) -> (r: Self)
        requires
            time_valid_date(parts.0 as int, parts.1 as int, parts.2 as int),
        ensures
            r@ == parts,
    {
        DmyDate { year: parts.0, month: parts.1, day: parts.2 }
    }

    /// The year, month and day of the date, which are valid.
    pub fn parts(self) -> (r: (i32, u8, u8))
        ensures
            r == self@,
            time_valid_date(r.0 as int, r.1 as int, r.2 as int),
    {
        proof { use_type_invariant(&self); }
        (self.year, self.month, self.day)
    }

    /// Creates a value from a `time::Date`.
    pub fn new(value: Date) -> (r: Self)
        ensures
            r@ == time_date_fields(value),
            time_valid_date(r@.0 as int, r@.1 as int, r@.2 as int),
    {
        Self::from_parts(time_date_parts(&value))
    }

    /// Parses a text of the form `DD.MM.YYYY`.
    pub fn parse(value: &str) -> (r: Result<Self, time::error::Parse>)
        ensures
            r is Ok <==> time_parse_date(value@, DMY_DATE_FORMAT@) is Some,
            r matches Ok(v) ==> Some(v@) == time_parse_date(value@, DMY_DATE_FORMAT@)
                && time_valid_date(v@.0 as int, v@.1 as int, v@.2 as int),
            forall|p: (i32, u8, u8)|
                #![trigger dmy_text(p)]
                time_valid_date(p.0 as int, p.1 as int, p.2 as int) && value@ == dmy_text(p) ==> (r matches Ok(
                    v,
                ) && v@ == p),
    {
        let r = time_parse_date_parts(value, DMY_DATE_FORMAT);
        proof {
            assert forall|p: (i32, u8, u8)|
                #![trigger dmy_text(p)]
                time_valid_date(p.0 as int, p.1 as int, p.2 as int) && value@ == dmy_text(p) implies (r matches Ok(
                    q,
                ) && q == p) by {
                if let Ok(q) = r {
                    lemma_dmy_text_injective(p, q);
                }
            }
        }
        match r {
            Ok(parts) => Ok(Self::from_parts(parts)),
            Err(e) => Err(e),
        }
    }

    /// The value as a `time::Date`.
    pub fn get(self) -> (r: Date)
        ensures
            time_date_fields(r) == self@,
    {
        proof { use_type_invariant(&self); }
        match time_date_from_calendar_date(self.year, self.month, self.day) {
            Some(date) => date,
            None => {
                proof {
                    assert(false);
                }
                time_date_from_calendar_date(self.year, self.month, self.day).unwrap()
            },
        }
    }

    /// The text `DD.MM.YYYY` of the date, as its `Display` writes it.
    pub fn to_dmy_string(&self) -> (r: String)
        ensures
            r@ == dmy_text(self@),
    {
        time_format_date_parts(self.parts(), DMY_DATE_FORMAT)
    }

    /// The date of the parts of a `chrono::NaiveDate`.
    pub fn from_chrono_parts(year: i32, month: u32, day: u32) -> (r: Result<Self, InputError>)
        ensures
            !(1 <= month <= 12) ==> r == Err::<Self, InputError>(
                InputError::ChronoOutOfRange { kind: "month" },
            ),
            1 <= month <= 12 && day > 255 ==> r == Err::<Self, InputError>(
                InputError::ChronoOutOfRange { kind: "day" },
            ),
            1 <= month <= 12 && day <= 255 && !time_valid_date(year as int, month as int, day as int)
                ==> r == Err::<Self, InputError>(InputError::ChronoOutOfRange { kind: "date" }),
            time_valid_date(year as int, month as int, day as int) ==> (r matches Ok(v) && v@ == (
                year,
                month as u8,
                day as u8,
            )),
    {
        let month = match chrono_month_to_time(month) {
            Ok(m) => m,
            Err(e) => return Err(e),
        };
        if day > 255 {
            return Err(InputError::ChronoOutOfRange { kind: "day" });
        }
        let day = day as u8;
        if time_date_from_calendar_date(year, month, day).is_none() {
            return Err(InputError::ChronoOutOfRange { kind: "date" });
        }
        Ok(Self::from_parts((year, month, day)))
    }

    /// Converts a `chrono::NaiveDate`.
    pub fn try_from_chrono(value: NaiveDate) -> (r: Result<Self, InputError>)
        ensures
            dmy_result_parts(r) == dmy_from_chrono_fields(chrono_date_fields(value)),
            r matches Ok(v) ==> time_valid_date(v@.0 as int, v@.1 as int, v@.2 as int),
    {
        let p = chrono_date_parts(&value);
        let r = Self::from_chrono_parts(p.0, p.1, p.2);
        match r {
            Ok(v) => {
                proof { use_type_invariant(&v); }
                Ok(v)
            },
            Err(e) => Err(e),
        }
    }

    /// Converts to a `chrono::NaiveDate`: the date must be in chrono's range,
    /// which holds of every value here.
    pub fn try_to_chrono(self) -> (r: Result<NaiveDate, InputError>)
        ensures
            r is Ok <==> chrono_valid_date(self@.0 as int, self@.1 as int, self@.2 as int),
            r matches Err(e) ==> e == (InputError::ChronoOutOfRange { kind: "date" }),
            r matches Ok(d) ==> chrono_date_fields(d) == chrono_fields_of_date(self@),
    {
        match chrono_date_from_ymd(self.year, self.month as u32, self.day as u32) {
            Some(d) => Ok(d),
            None => Err(InputError::ChronoOutOfRange { kind: "date" }),
        }
    }
}

} // verus!
