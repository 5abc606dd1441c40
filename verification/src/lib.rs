//! Typed building blocks of a client for the statistical data service of
//! the Bank of Russia (<https://www.cbr.ru/dataservice>): strictly typed
//! identifiers and dates, the query strings of the data methods, the checks
//! of an answer before it is parsed, the answer models and the catalogue
//! search of the currency presets.

pub mod ascii;
pub mod client;
pub mod client_common;
pub mod datetime;
pub mod error;
pub mod models;
pub mod presets;
pub mod query;
pub mod text;
pub mod types;

pub use client::{CbrClientBuilder, TransportSettings};
pub use client_common::DEFAULT_BASE_URL;
pub use error::ResponseError;
pub use models::{
    CategoryNewItem, CategoryNewResponse, DataExLink, DataHeader, DataNewLink, DataRange,
    DataSeriesType, DataUnit, Dataset, DatasetDescription, DatasetExIndicator, DatasetExMeasure1,
    DatasetExMeasure2, DatasetExUnit, DatasetKind, DatasetReporting, DatasetsExResponse, Measure,
    MeasuresResponse, NamedEntity, Publication, SeriesType, SortKey, YearRange,
};
pub use presets::SeriesPreset;
pub use query::{DataExQuery, DataNewQuery, DataQuery};
pub use types::{
    CategoryId, ColumnId, DatasetId, DmyDate, ElementId, Id, IdKind, IndicatorId, InputError,
    IsoDateTime, MeasureId, ParentRef, PeriodId, Periodicity, PublicationId, RowId, UnitId, Year,
    YearSpan,
};
