//! Presets and the catalogue search for exchange rate series.

use vstd::prelude::*;

use crate::models::CategoryNewItem;
use crate::text::{chars_of, contains_chars, contains_text, str_eq};
use crate::types::{CategoryId, IndicatorId, MeasureId};

use super::SeriesPreset;

verus! {

/// Part of the name of the category of nominal exchange rates to the rouble.
pub const CATEGORY_SUBSTR: &'static str = "Номинальные курсы иностранных валют к рублю";

/// Part of a category name that marks monthly data.
pub const MONTHLY_SUBSTR: &'static str = "ежемесячные данные";

/// Part of a category name that marks quarterly data.
pub const QUARTERLY_SUBSTR: &'static str = "ежеквартальные данные";

/// Indicator name of the nominal rate.
pub const INDICATOR_NOMINAL: &'static str = "Номинальный курс";

/// Indicator name of the average rate over the period.
pub const INDICATOR_AVERAGE: &'static str = "Средний номинальный курс за период";

/// Indicator name of the average rate since the start of the year.
pub const INDICATOR_AVERAGE_YTD: &'static str = "Средний номинальный курс за период с начала года";

/// Periodicity of an exchange rate series.
#[derive(Debug, Clone, Copy, PartialEq, Eq)]
pub enum FxPeriodicity {
    /// Monthly series.
    Monthly,
    /// Quarterly series.
    Quarterly,
}

/// Metric of an exchange rate series.
#[derive(Debug, Clone, Copy, PartialEq, Eq)]
pub enum FxMetric {
    /// Nominal rate at the end of the period.
    Nominal,
    /// Average rate over the period.
    Average,
    /// Average rate since the start of the year.
    AverageYtd,
}

/// The part of a category name that marks its periodicity.
pub open spec fn periodicity_text(periodicity: FxPeriodicity) -> Seq<char> {
    match periodicity {
        FxPeriodicity::Monthly => MONTHLY_SUBSTR@,
        FxPeriodicity::Quarterly => QUARTERLY_SUBSTR@,
    }
}

/// The indicator name of a metric.
pub open spec fn indicator_text(metric: FxMetric) -> Seq<char> {
    match metric {
        FxMetric::Nominal => INDICATOR_NOMINAL@,
        FxMetric::Average => INDICATOR_AVERAGE@,
        FxMetric::AverageYtd => INDICATOR_AVERAGE_YTD@,
    }
}

/// A catalogue entry of the exchange rate category with the periodicity,
/// whose indicator has the name of the metric.
pub open spec fn fx_item_matches(
    item: CategoryNewItem,
    periodicity: FxPeriodicity,
    metric: FxMetric,
) -> bool {
    &&& contains_text(item.category_name@, CATEGORY_SUBSTR@)
    &&& contains_text(item.category_name@, periodicity_text(periodicity))
    &&& item.indicator_name@ == indicator_text(metric)
}

/// An entry matches a metric only when its indicator name is exactly the
/// metric's name: containing it is not enough.
pub proof fn law_fx_match_needs_exact_indicator_name(
    item: CategoryNewItem,
    periodicity: FxPeriodicity,
    metric: FxMetric,
)
    requires
        fx_item_matches(item, periodicity, metric),
    ensures
        item.indicator_name@ == indicator_text(metric),
{
}

/// The entry of the average since the start of the year, whose name
/// contains the name of the average over the period, never matches the
/// average over the period.
pub proof fn law_fx_average_excludes_year_to_date(item: CategoryNewItem, periodicity: FxPeriodicity)
    requires
        item.indicator_name@ == INDICATOR_AVERAGE_YTD@,
    ensures
        !fx_item_matches(item, periodicity, FxMetric::Average),
{
    reveal_strlit("Средний номинальный курс за период");
    reveal_strlit("Средний номинальный курс за период с начала года");
    assert(INDICATOR_AVERAGE@.len() != INDICATOR_AVERAGE_YTD@.len());
}

fn periodicity_substr(periodicity: FxPeriodicity) -> (r: &'static str)
    ensures
        r@ == periodicity_text(periodicity),
{
    match periodicity {
        FxPeriodicity::Monthly => MONTHLY_SUBSTR,
        FxPeriodicity::Quarterly => QUARTERLY_SUBSTR,
    }
}

fn indicator_name(metric: FxMetric) -> (r: &'static str)
    ensures
        r@ == indicator_text(metric),
{
    match metric {
        FxMetric::Nominal => INDICATOR_NOMINAL,
        FxMetric::Average => INDICATOR_AVERAGE,
        FxMetric::AverageYtd => INDICATOR_AVERAGE_YTD,
    }
}

/// Finds the series of the periodicity and metric in a catalogue of
/// `/categoryNew`: the first matching entry gives the preset.
pub fn find_fx_series(
    items: &[CategoryNewItem],
    periodicity: FxPeriodicity,
    metric: FxMetric,
) -> (r: Option<SeriesPreset>)
    ensures
        r is Some <==> exists|i: int|
            0 <= i < items@.len() && fx_item_matches(#[trigger] items@[i], periodicity, metric),
        r matches Some(preset) ==> exists|i: int|
            0 <= i < items@.len() && fx_item_matches(#[trigger] items@[i], periodicity, metric)
                && (forall|j: int| 0 <= j < i ==> !fx_item_matches(#[trigger] items@[j], periodicity, metric))
                && preset.category_id == items@[i].category_id && preset.indicator_id
                == items@[i].indicator_id,
        r matches Some(preset) ==> exists|i: int|
            0 <= i < items@.len() && (#[trigger] items@[i]).indicator_name@ == indicator_text(metric)
                && preset.category_id == items@[i].category_id && preset.indicator_id
                == items@[i].indicator_id,
{
    let category = chars_of(CATEGORY_SUBSTR);
    let period = chars_of(periodicity_substr(periodicity));
    let name = indicator_name(metric);
    let mut i: usize = 0;
    while i < items.len()
        invariant
            i <= items@.len(),
            category@ == CATEGORY_SUBSTR@,
            period@ == periodicity_text(periodicity),
            name@ == indicator_text(metric),
            forall|j: int| 0 <= j < i ==> !fx_item_matches(#[trigger] items@[j], periodicity, metric),
        decreases items@.len() - i,
    {
        let item = &items[i];
        let item_category = chars_of(item.category_name.as_str());
        if contains_chars(item_category.as_slice(), category.as_slice()) && contains_chars(
            item_category.as_slice(),
            period.as_slice(),
        ) && str_eq(item.indicator_name.as_str(), name) {
            return Some(SeriesPreset::new(item.category_id, item.indicator_id));
        }
        i = i + 1;
    }
    None
}

/// Preset of the monthly nominal rate in the category of rates to RUB.
///
/// Choose the currency with the `measure2_id` presets of this module. Valid
/// when written; it may become stale when the API changes.
pub fn usd_rub_monthly_nominal() -> (r: SeriesPreset)
    ensures
        r.category_id@ == 33,
        r.indicator_id@ == 127,
{
    SeriesPreset::new(CategoryId::new_const(33), IndicatorId::new_const(127))
}

/// Preset of the monthly average rate over the period.
pub fn usd_rub_monthly_average() -> (r: SeriesPreset)
    ensures
        r.category_id@ == 33,
        r.indicator_id@ == 128,
{
    SeriesPreset::new(CategoryId::new_const(33), IndicatorId::new_const(128))
}

/// Preset of the monthly average rate since the start of the year.
pub fn usd_rub_monthly_average_ytd() -> (r: SeriesPreset)
    ensures
        r.category_id@ == 33,
        r.indicator_id@ == 139,
{
    SeriesPreset::new(CategoryId::new_const(33), IndicatorId::new_const(139))
}

/// Preset of the quarterly nominal rate.
pub fn usd_rub_quarterly_nominal() -> (r: SeriesPreset)
    ensures
        r.category_id@ == 35,
        r.indicator_id@ == 133,
{
    SeriesPreset::new(CategoryId::new_const(35), IndicatorId::new_const(133))
}

/// Preset of the quarterly average rate over the period.
pub fn usd_rub_quarterly_average() -> (r: SeriesPreset)
    ensures
        r.category_id@ == 35,
        r.indicator_id@ == 134,
{
    SeriesPreset::new(CategoryId::new_const(35), IndicatorId::new_const(134))
}

/// Preset of the quarterly average rate since the start of the year.
pub fn usd_rub_quarterly_average_ytd() -> (r: SeriesPreset)
    ensures
        r.category_id@ == 35,
        r.indicator_id@ == 141,
{
    SeriesPreset::new(CategoryId::new_const(35), IndicatorId::new_const(141))
}

/// `measure2_id` of the USD/RUB rate at the end of the period.
pub fn usd_to_rub_end_of_period_measure2_id() -> (r: MeasureId)
    ensures
        r@ == 98,
{
    MeasureId::new_const(98)
}

/// `measure2_id` of the EUR/RUB rate at the end of the period.
pub fn eur_to_rub_end_of_period_measure2_id() -> (r: MeasureId)
    ensures
        r@ == 99,
{
    MeasureId::new_const(99)
}

/// `measure2_id` of the CNY/RUB rate at the end of the period.
pub fn cny_to_rub_end_of_period_measure2_id() -> (r: MeasureId)
    ensures
        r@ == 100,
{
    MeasureId::new_const(100)
}

/// `measure2_id` of the average USD/RUB rate over the period.
pub fn usd_to_rub_average_measure2_id() -> (r: MeasureId)
    ensures
        r@ == 101,
{
    MeasureId::new_const(101)
}

/// `measure2_id` of the average EUR/RUB rate over the period.
pub fn eur_to_rub_average_measure2_id() -> (r: MeasureId)
    ensures
        r@ == 102,
{
    MeasureId::new_const(102)
}

/// `measure2_id` of the average CNY/RUB rate over the period.
pub fn cny_to_rub_average_measure2_id() -> (r: MeasureId)
    ensures
        r@ == 103,
{
    MeasureId::new_const(103)
}

} // verus!
