use cbr_client::presets::fx::{self, FxMetric, FxPeriodicity};
use cbr_client::{CategoryId, CategoryNewItem, IndicatorId, ParentRef, SeriesPreset, Year};

const MONTHLY: &str = "Статистика внешнего сектора-Основные производные показатели динамики обменного курса рубля-Номинальные курсы иностранных валют к рублю (рублей за единицу иностранной валюты) (ежемесячные данные)";
const QUARTERLY: &str = "Статистика внешнего сектора-Основные производные показатели динамики обменного курса рубля-Номинальные курсы иностранных валют к рублю (рублей за единицу иностранной валюты) (ежеквартальные данные)";

fn item(category: i32, category_name: &str, indicator: i32, indicator_name: &str) -> CategoryNewItem {
    CategoryNewItem {
        category_id: CategoryId::new(category).unwrap(),
        category_name: category_name.to_owned(),
        indicator_id: IndicatorId::new(indicator).unwrap(),
        indicator_parent: ParentRef::new(-1).unwrap(),
        indicator_name: indicator_name.to_owned(),
        link: "/statistics/macro_itm/external_sector/er/".to_owned(),
        begin_dt: Year::new(2005),
        end_dt: Year::new(2026),
    }
}

fn fx_catalog() -> Vec<CategoryNewItem> {
    vec![
        item(33, MONTHLY, 127, "Номинальный курс"),
        item(33, MONTHLY, 128, "Средний номинальный курс за период"),
        item(33, MONTHLY, 139, "Средний номинальный курс за период с начала года"),
        item(35, QUARTERLY, 133, "Номинальный курс"),
        item(35, QUARTERLY, 134, "Средний номинальный курс за период"),
        item(35, QUARTERLY, 141, "Средний номинальный курс за период с начала года"),
    ]
}

#[test]
fn find_fx_series_resolves_usd_rub_presets() {
    let items = fx_catalog();
    let find = |p, m| fx::find_fx_series(&items, p, m).unwrap();
    assert_eq!(find(FxPeriodicity::Monthly, FxMetric::Nominal), fx::usd_rub_monthly_nominal());
    assert_eq!(find(FxPeriodicity::Monthly, FxMetric::Average), fx::usd_rub_monthly_average());
    assert_eq!(
        find(FxPeriodicity::Monthly, FxMetric::AverageYtd),
        fx::usd_rub_monthly_average_ytd()
    );
    assert_eq!(
        find(FxPeriodicity::Quarterly, FxMetric::Nominal),
        fx::usd_rub_quarterly_nominal()
    );
    assert_eq!(
        find(FxPeriodicity::Quarterly, FxMetric::Average),
        fx::usd_rub_quarterly_average()
    );
    assert_eq!(
        find(FxPeriodicity::Quarterly, FxMetric::AverageYtd),
        fx::usd_rub_quarterly_average_ytd()
    );
}

#[test]
fn find_fx_series_returns_none_without_match() {
    let items = vec![item(5, "Money", 7, "M2")];
    assert_eq!(
        fx::find_fx_series(&items, FxPeriodicity::Monthly, FxMetric::Nominal),
        None
    );
    assert_eq!(fx::find_fx_series(&[], FxPeriodicity::Quarterly, FxMetric::Average), None);
}

#[test]
fn find_fx_series_takes_the_first_match() {
    let mut items = fx_catalog();
    items.insert(0, item(40, MONTHLY, 200, "Номинальный курс"));
    let found = fx::find_fx_series(&items, FxPeriodicity::Monthly, FxMetric::Nominal).unwrap();
    assert_eq!(
        found,
        SeriesPreset::new(CategoryId::new(40).unwrap(), IndicatorId::new(200).unwrap())
    );
}

#[test]
fn measure_presets_have_their_ids() {
    assert_eq!(fx::usd_to_rub_end_of_period_measure2_id().get(), 98);
    assert_eq!(fx::eur_to_rub_end_of_period_measure2_id().get(), 99);
    assert_eq!(fx::cny_to_rub_end_of_period_measure2_id().get(), 100);
    assert_eq!(fx::usd_to_rub_average_measure2_id().get(), 101);
    assert_eq!(fx::eur_to_rub_average_measure2_id().get(), 102);
    assert_eq!(fx::cny_to_rub_average_measure2_id().get(), 103);
    assert_eq!(fx::usd_rub_monthly_nominal().category_id.get(), 33);
    assert_eq!(fx::usd_rub_quarterly_average_ytd().indicator_id.get(), 141);
}
