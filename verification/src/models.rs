use vstd::prelude::*;

use crate::text::{parse_i32, parsed_i32, str_eq};
use crate::types::{
    IsoDateTime, CategoryId, ColumnId, DatasetId, ElementId, IndicatorId, MeasureId, ParentRef,
    PublicationId, UnitId, Year,
};

verus! {

/// Indicator in the answer of `/datasetsEx`.
pub type DatasetExIndicator = NamedEntity<IndicatorId, IndicatorId>;

/// Measure `measure_1` in the answer of `/datasetsEx`.
pub type DatasetExMeasure1 = NamedEntity<MeasureId, IndicatorId>;

/// Measure `measure_2` in the answer of `/datasetsEx`.
pub type DatasetExMeasure2 = NamedEntity<MeasureId, IndicatorId>;

/// Unit in the answer of `/datasetsEx`.
pub type DatasetExUnit = NamedEntity<UnitId, UnitId>;

/// Kind code of a dataset from `/datasets`.
#[derive(Debug, Clone, Copy, PartialEq, Eq)]
pub enum DatasetKind {
    /// Code `1`.
    Code1,
    /// Code `2`.
    Code2,
    /// Any other code.
    Unknown(i32),
}

/// The numeric code of a dataset kind.
pub open spec fn dataset_kind_code(kind: DatasetKind) -> i32 {
    match kind {
        DatasetKind::Code1 => 1,
        DatasetKind::Code2 => 2,
        DatasetKind::Unknown(value) => value,
    }
}

/// The dataset kind of a numeric code.
pub open spec fn dataset_kind_of(value: i32) -> DatasetKind {
    if value == 1 {
        DatasetKind::Code1
    } else if value == 2 {
        DatasetKind::Code2
    } else {
        DatasetKind::Unknown(value)
    }
}

/// The code of the kind of a code is that code; the kind of the code of a
/// kind is that kind, except for `Unknown(1)` and `Unknown(2)`, which the
/// API never yields, as codes 1 and 2 have kinds of their own.
pub proof fn law_dataset_kind_code_roundtrip(value: i32, kind: DatasetKind)
    ensures
        dataset_kind_code(dataset_kind_of(value)) == value,
        kind != DatasetKind::Unknown(1) && kind != DatasetKind::Unknown(2) ==> dataset_kind_of(
            dataset_kind_code(kind),
        ) == kind,
{
}

/// Code 1 and code 2 are the kinds `Code1` and `Code2`, and every other
/// code is an unknown kind that keeps it.
pub proof fn law_dataset_kind_codes(value: i32)
    ensures
        (dataset_kind_of(value) == DatasetKind::Code1) == (value == 1),
        (dataset_kind_of(value) == DatasetKind::Code2) == (value == 2),
        value != 1 && value != 2 ==> dataset_kind_of(value) == DatasetKind::Unknown(value),
        dataset_kind_code(DatasetKind::Code1) == 1,
        dataset_kind_code(DatasetKind::Code2) == 2,
{
}

impl DatasetKind {
    /// The kind of a numeric code of the API.
    pub fn from_code(value: i32) -> (r: Self)
        ensures
            r == dataset_kind_of(value),
    {
        match value {
            1 => DatasetKind::Code1,
            2 => DatasetKind::Code2,
            other => DatasetKind::Unknown(other),
        }
    }

    /// The numeric code of the kind.
    pub fn code(self) -> (r: i32)
        ensures
            r == dataset_kind_code(self),
    {
        match self {
            DatasetKind::Code1 => 1,
            DatasetKind::Code2 => 2,
            DatasetKind::Unknown(value) => value,
        }
    }
}

/// Reporting type of a dataset (`reporting` in `/datasets`).
#[derive(Debug, Clone, PartialEq, Eq)]
pub enum DatasetReporting {
    /// The value `period`.
    Period,
    /// Any other value.
    Unknown(String),
}

/// The text of a reporting type.
pub open spec fn reporting_text(reporting: DatasetReporting) -> Seq<char> {
    match reporting {
        DatasetReporting::Period => "period"@,
        DatasetReporting::Unknown(value) => value@,
    }
}

/// The reporting type that a text of the API stands for.
pub open spec fn reporting_of(value: String) -> DatasetReporting {
    if value@ == "period"@ {
        DatasetReporting::Period
    } else {
        DatasetReporting::Unknown(value)
    }
}

/// The text of the reporting type read from a text is that text.
pub proof fn law_reporting_text_roundtrip(value: String)
    ensures
        reporting_text(reporting_of(value)) == value@,
{
}

/// A reporting text is the type `Period` exactly when it is `period`, and
/// any other text is kept as it is.
pub proof fn law_reporting_period(value: String)
    ensures
        (reporting_of(value) == DatasetReporting::Period) == (value@ == seq!['p', 'e', 'r', 'i', 'o', 'd']),
        value@ != seq!['p', 'e', 'r', 'i', 'o', 'd'] ==> reporting_of(value) == DatasetReporting::Unknown(value),
        reporting_text(DatasetReporting::Period) == seq!['p', 'e', 'r', 'i', 'o', 'd'],
{
    reveal_strlit("period");
    assert("period"@ =~= seq!['p', 'e', 'r', 'i', 'o', 'd']);
}

impl DatasetReporting {
    /// The reporting type that a text of the API stands for.
    pub fn from_text(value: String) -> (r: Self)
        ensures
            r == reporting_of(value),
    {
        if str_eq(value.as_str(), "period") {
            DatasetReporting::Period
        } else {
            DatasetReporting::Unknown(value)
        }
    }

    /// The text of the reporting type.
    pub fn as_str(&self) -> (r: &str)
        ensures
            r@ == reporting_text(*self),
    {
        match self {
            DatasetReporting::Period => "period",
            DatasetReporting::Unknown(value) => value.as_str(),
        }
    }
}

/// Series type code from `/data`.
#[derive(Debug, Clone, Copy, PartialEq, Eq)]
pub enum SeriesType {
    /// Code `1`.
    Code1,
    /// Code `2`.
    Code2,
    /// Code `3`.
    Code3,
    /// Any other code.
    Unknown(i32),
}

/// The numeric code of a series type.
pub open spec fn series_type_code(kind: SeriesType) -> i32 {
    match kind {
        SeriesType::Code1 => 1,
        SeriesType::Code2 => 2,
        SeriesType::Code3 => 3,
        SeriesType::Unknown(value) => value,
    }
}

/// The series type of a numeric code.
pub open spec fn series_type_of(value: i32) -> SeriesType {
    if value == 1 {
        SeriesType::Code1
    } else if value == 2 {
        SeriesType::Code2
    } else if value == 3 {
        SeriesType::Code3
    } else {
        SeriesType::Unknown(value)
    }
}

/// The code of the series type of a code is that code; the series type of
/// the code of a series type is that type, except for `Unknown(1)`,
/// `Unknown(2)` and `Unknown(3)`, which the API never yields.
pub proof fn law_series_type_code_roundtrip(value: i32, kind: SeriesType)
    ensures
        series_type_code(series_type_of(value)) == value,
        kind != SeriesType::Unknown(1) && kind != SeriesType::Unknown(2) && kind != SeriesType::Unknown(3)
            ==> series_type_of(series_type_code(kind)) == kind,
{
}

/// Codes 1, 2 and 3 are the series types `Code1`, `Code2` and `Code3`, and
/// every other code is an unknown type that keeps it.
pub proof fn law_series_type_codes(value: i32)
    ensures
        (series_type_of(value) == SeriesType::Code1) == (value == 1),
        (series_type_of(value) == SeriesType::Code2) == (value == 2),
        (series_type_of(value) == SeriesType::Code3) == (value == 3),
        value != 1 && value != 2 && value != 3 ==> series_type_of(value) == SeriesType::Unknown(value),
        series_type_code(SeriesType::Code1) == 1,
        series_type_code(SeriesType::Code2) == 2,
        series_type_code(SeriesType::Code3) == 3,
{
}

impl SeriesType {
    /// The series type of a numeric code of the API.
    pub fn from_code(value: i32) -> (r: Self)
        ensures
            r == series_type_of(value),
    {
        match value {
            1 => SeriesType::Code1,
            2 => SeriesType::Code2,
            3 => SeriesType::Code3,
            other => SeriesType::Unknown(other),
        }
    }

    /// The numeric code of the series type.
    pub fn code(self) -> (r: i32)
        ensures
            r == series_type_code(self),
    {
        match self {
            SeriesType::Code1 => 1,
            SeriesType::Code2 => 2,
            SeriesType::Code3 => 3,
            SeriesType::Unknown(value) => value,
        }
    }
}

/// Sort key of `DataExLink::s_sort`.
#[derive(Debug, Clone, PartialEq, Eq)]
pub enum SortKey {
    /// Numeric sort key.
    Numeric(i32),
    /// Text sort key.
    Text(String),
}

impl SortKey {
    /// The sort key of an integer of the API; `None` outside the range of `i32`.
    pub fn from_integer(value: i64) -> (r: Option<Self>)
        ensures
            r is Some <==> i32::MIN <= value <= i32::MAX,
            r matches Some(k) ==> k == SortKey::Numeric(value as i32),
    {
        if value < -2147483648 || value > 2147483647 {
            None
        } else {
            Some(SortKey::Numeric(value as i32))
        }
    }

    /// The sort key of an unsigned integer of the API; `None` above `i32::MAX`.
    pub fn from_unsigned(value: u64) -> (r: Option<Self>)
        ensures
            r is Some <==> value <= i32::MAX,
            r matches Some(k) ==> k == SortKey::Numeric(value as i32),
    {
        if value > 2147483647 {
            None
        } else {
            Some(SortKey::Numeric(value as i32))
        }
    }

    /// The sort key of a text of the API: numeric when the text is a decimal
    /// `i32`, else the text itself.
    pub fn from_text(value: String) -> (r: Self)
        ensures
            parsed_i32(value@) matches Some(n) ==> r == SortKey::Numeric(n),
            parsed_i32(value@) is None ==> r == SortKey::Text(value),
    {
        match parse_i32(value.as_str()) {
            Some(parsed) => SortKey::Numeric(parsed),
            None => SortKey::Text(value),
        }
    }

    /// The numeric value of the key, when it is numeric.
    pub fn as_numeric(&self) -> (r: Option<i32>)
        ensures
            r == (match *self {
                SortKey::Numeric(v) => Some(v),
                SortKey::Text(_) => None,
            }),
    {
        match self {
            SortKey::Numeric(value) => Some(*value),
            SortKey::Text(_) => None,
        }
    }

    /// The text of the key, when it is not numeric.
    pub fn as_text(&self) -> (r: Option<&str>)
        ensures
            r is Some <==> *self is Text,
            r matches Some(t) ==> (*self matches SortKey::Text(s) && t@ == s@),
    {
        match self {
            SortKey::Numeric(_) => None,
            SortKey::Text(value) => Some(value.as_str()),
        }
    }
}

/// The flag that a `0`/`1` code of the API stands for; `None` for other codes.
pub fn zero_one_bool(value: i32) -> (r: Option<bool>)
    ensures
        r == (if value == 0 {
            Some(false)
        } else if value == 1 {
            Some(true)
        } else {
            None
        }),
{
    match value {
        0 => Some(false),
        1 => Some(true),
        _ => None,
    }
}

/// Publication (category) of the answer of `/publications`.
#[derive(Debug, Clone, PartialEq)]
pub struct Publication {
    pub id: PublicationId,
    pub parent_id: ParentRef<PublicationId>,
    pub category_name: String,
    pub no_active: bool,
    pub pub_description: Option<String>,
    pub updated_time: Option<IsoDateTime>,
}

/// Dataset of the answer of `/datasets`.
#[derive(Debug, Clone, PartialEq)]
pub struct Dataset {
    pub id: DatasetId,
    pub parent_id: ParentRef<PublicationId>,
    pub name: String,
    pub full_name: String,
    pub kind: DatasetKind,
    pub reporting: DatasetReporting,
    pub link: String,
    pub updated_time: Option<IsoDateTime>,
}

/// Answer of `/measures`.
#[derive(Debug, Clone, PartialEq)]
pub struct MeasuresResponse {
    /// The measures of a dataset.
    pub measure: Vec<Measure>,
}

/// Measure of a dataset.
#[derive(Debug, Clone, PartialEq)]
pub struct Measure {
    pub id: MeasureId,
    pub parent_id: ParentRef<DatasetId>,
    pub name: String,
    pub sort: Option<i32>,
}

/// Range of years.
#[derive(Debug, Clone, PartialEq)]
pub struct YearRange {
    pub from_year: Option<Year>,
    pub to_year: Option<Year>,
}

/// Extended directory of a publication from `/datasetsEx`.
#[derive(Debug, Clone, PartialEq)]
pub struct DatasetsExResponse {
    pub indicators: Vec<DatasetExIndicator>,
    pub measures_1: Vec<DatasetExMeasure1>,
    pub measures_2: Vec<DatasetExMeasure2>,
    pub units: Vec<DatasetExUnit>,
    pub years: Vec<YearRange>,
}

/// Named entity of `/datasetsEx`.
#[derive(Debug, Clone, PartialEq)]
pub struct NamedEntity<Id, ParentId> {
    pub id: Id,
    pub parent_id: ParentRef<ParentId>,
    pub name: String,
}

/// Column header of `DataResponse::header_data`.
#[derive(Debug, Clone, PartialEq)]
pub struct DataHeader {
    pub id: Option<ColumnId>,
    pub elname: Option<String>,
}

/// Unit of `DataResponse::units`.
#[derive(Debug, Clone, PartialEq)]
pub struct DataUnit {
    pub id: Option<UnitId>,
    pub val: Option<String>,
}

/// Range of dates of `DataResponse::dt_range`.
#[derive(Debug, Clone, PartialEq)]
pub struct DataRange {
    pub from_year: Option<Year>,
    pub to_year: Option<Year>,
}

/// Series type of `DataResponse::s_type`.
#[derive(Debug, Clone, PartialEq)]
pub struct DataSeriesType {
    pub s_type: Option<SeriesType>,
    pub ds_name: Option<String>,
    pub publ_name: Option<String>,
}

/// Reference links of `DataExResponse::links`.
#[derive(Debug, Clone, PartialEq)]
pub struct DataExLink {
    pub indicator_id: Option<IndicatorId>,
    pub measure_1_id: Option<MeasureId>,
    pub measure_2_id: Option<MeasureId>,
    pub unit_id: Option<UnitId>,
    pub name: Option<String>,
    pub s_sort: Option<SortKey>,
}

/// Description (methodology) of a dataset from `/DatasetDescription`.
#[derive(Debug, Clone, PartialEq)]
pub struct DatasetDescription {
    pub description: String,
}

/// Answer of `/categoryNew`.
#[derive(Debug, Clone, PartialEq)]
pub struct CategoryNewResponse {
    /// Categories and indicators.
    pub category: Vec<CategoryNewItem>,
}

/// Entry of the list of categories and indicators.
#[derive(Debug, Clone, PartialEq)]
pub struct CategoryNewItem {
    pub category_id: CategoryId,
    pub category_name: String,
    pub indicator_id: IndicatorId,
    pub indicator_parent: ParentRef<IndicatorId>,
    pub indicator_name: String,
    pub link: String,
    pub begin_dt: Year,
    pub end_dt: Year,
}

/// Reference links of `DataNewResponse::links`.
#[derive(Debug, Clone, PartialEq)]
pub struct DataNewLink {
    pub indicator_id: Option<IndicatorId>,
    pub indicator_parent: Option<ParentRef<IndicatorId>>,
    pub measure1_id: Option<MeasureId>,
    pub measure2_id: Option<MeasureId>,
    pub unit_id: Option<UnitId>,
    pub indicator_name: Option<String>,
    pub measure1_name: Option<String>,
    pub measure2_name: Option<String>,
    pub un_name: Option<String>,
}

} // verus!
