//! Preset identifiers and the catalogue search for popular series.
//!
//! The identifiers of the API may change over time; where possible, resolve
//! them at run time from the catalogue.

use vstd::prelude::*;

use crate::types::{CategoryId, IndicatorId};

pub mod fx;

verus! {

/// A pair of category and indicator identifiers for a `/dataNew` request.
#[derive(Debug, Clone, Copy, PartialEq, Eq)]
pub struct SeriesPreset {
    /// Category identifier (`categoryId`).
    pub category_id: CategoryId,
    /// Indicator identifier (`i_ids`).
    pub indicator_id: IndicatorId,
}

impl SeriesPreset {
    /// Creates a series preset.
    pub fn new(category_id: CategoryId, indicator_id: IndicatorId) -> (r: Self)
        ensures
            r.category_id == category_id,
            r.indicator_id == indicator_id,
    {
        SeriesPreset { category_id, indicator_id }
    }
}

} // verus!
