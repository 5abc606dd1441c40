use vstd::prelude::*;

use core::marker::PhantomData;

pub use crate::datetime::{DmyDate, IsoDateTime};

use crate::text::str_eq;

verus! {

/// Marker of the domain of an identifier.
pub trait IdKind {
    /// Field name used in error messages.
    const NAME: &'static str;
}

/// Validation errors of input values.
#[derive(Debug, Clone, PartialEq, Eq)]
pub enum InputError {
    /// An identifier must be strictly positive.
    NonPositiveId { kind: &'static str, value: i32 },
    /// The start of a year span is after its end.
    InvalidYearSpan { start: i32, end: i32 },
    /// A parent reference must be `-1` (root) or a positive id.
    InvalidParentRef { value: i32 },
    /// A chrono value is out of the supported range.
    ChronoOutOfRange { kind: &'static str },
    /// Only whole seconds can be converted from chrono.
    ChronoSubsecondPrecision,
}

/// Strictly typed publication identifier.
pub type PublicationId = Id<PublicationIdKind>;

/// Strictly typed dataset identifier.
pub type DatasetId = Id<DatasetIdKind>;

/// Strictly typed category identifier.
pub type CategoryId = Id<CategoryIdKind>;

/// Strictly typed indicator identifier.
pub type IndicatorId = Id<IndicatorIdKind>;

/// Strictly typed measure identifier.
pub type MeasureId = Id<MeasureIdKind>;

/// Strictly typed unit identifier.
pub type UnitId = Id<UnitIdKind>;

/// Strictly typed data row identifier.
pub type RowId = Id<RowIdKind>;

/// Strictly typed period identifier.
pub type PeriodId = Id<PeriodIdKind>;

/// Strictly typed column identifier.
pub type ColumnId = Id<ColumnIdKind>;

/// Strictly typed element identifier.
pub type ElementId = Id<ElementIdKind>;

/// Marker of an identifier domain.
#[derive(Debug, Clone, Copy, PartialEq, Eq, PartialOrd, Ord, Hash)]
pub struct PublicationIdKind;

impl IdKind for PublicationIdKind {
    const NAME: &'static str = "publication_id";
}

/// Marker of an identifier domain.
#[derive(Debug, Clone, Copy, PartialEq, Eq, PartialOrd, Ord, Hash)]
pub struct DatasetIdKind;

impl IdKind for DatasetIdKind {
    const NAME: &'static str = "dataset_id";
}

/// Marker of an identifier domain.
#[derive(Debug, Clone, Copy, PartialEq, Eq, PartialOrd, Ord, Hash)]
pub struct CategoryIdKind;

impl IdKind for CategoryIdKind {
    const NAME: &'static str = "category_id";
}

/// Marker of an identifier domain.
#[derive(Debug, Clone, Copy, PartialEq, Eq, PartialOrd, Ord, Hash)]
pub struct IndicatorIdKind;

impl IdKind for IndicatorIdKind {
    const NAME: &'static str = "indicator_id";
}

/// Marker of an identifier domain.
#[derive(Debug, Clone, Copy, PartialEq, Eq, PartialOrd, Ord, Hash)]
pub struct MeasureIdKind;

impl IdKind for MeasureIdKind {
    const NAME: &'static str = "measure_id";
}

/// Marker of an identifier domain.
#[derive(Debug, Clone, Copy, PartialEq, Eq, PartialOrd, Ord, Hash)]
pub struct UnitIdKind;

impl IdKind for UnitIdKind {
    const NAME: &'static str = "unit_id";
}

/// Marker of an identifier domain.
#[derive(Debug, Clone, Copy, PartialEq, Eq, PartialOrd, Ord, Hash)]
pub struct RowIdKind;

impl IdKind for RowIdKind {
    const NAME: &'static str = "row_id";
}

/// Marker of an identifier domain.
#[derive(Debug, Clone, Copy, PartialEq, Eq, PartialOrd, Ord, Hash)]
pub struct PeriodIdKind;

impl IdKind for PeriodIdKind {
    const NAME: &'static str = "period_id";
}

/// Marker of an identifier domain.
#[derive(Debug, Clone, Copy, PartialEq, Eq, PartialOrd, Ord, Hash)]
pub struct ColumnIdKind;

impl IdKind for ColumnIdKind {
    const NAME: &'static str = "column_id";
}

/// Marker of an identifier domain.
#[derive(Debug, Clone, Copy, PartialEq, Eq, PartialOrd, Ord, Hash)]
pub struct ElementIdKind;

impl IdKind for ElementIdKind {
    const NAME: &'static str = "element_id";
}

/// Strictly typed positive identifier.
#[derive(Debug, PartialEq, Eq, PartialOrd, Ord, Hash)]
pub struct Id<K> {
    value: i32,
    kind: PhantomData<K>,
}

impl<K> View for Id<K> {
    type V = i32;

    closed spec fn view(&self) -> i32 {
        self.value
    }
}

impl<K> Clone for Id<K> {
    fn clone(&self) -> (r: Self)
        ensures
            r == *self,
    {
        *self
    }
}

impl<K> Copy for Id<K> {
}

impl<K> Id<K> {
    #[verifier::type_invariant]
    closed spec fn positive(self) -> bool {
        self.value > 0
    }

    /// Returns the raw value of the identifier.
    pub fn get(self) -> (r: i32)
        ensures
            r == self@,
            r > 0,
    {
        proof { use_type_invariant(&self); }
        self.value
    }
}

impl<K: IdKind> Id<K> {
    /// Creates an identifier from an integer.
    pub fn new(value: i32) -> (r: Result<Self, InputError>)
        ensures
            value > 0 <==> r is Ok,
            r matches Ok(id) ==> id@ == value,
            r matches Err(e) ==> e == (InputError::NonPositiveId { kind: K::NAME, value }),
    {
        if value <= 0 {
            return Err(InputError::NonPositiveId { kind: K::NAME, value });
        }
        Ok(Id { value, kind: PhantomData })
    }

    /// Creates an identifier from a value known to be positive.
    pub fn new_const(value: i32) -> (r: Self)
        requires
            value > 0,
        ensures
            r@ == value,
    {
        Id { value, kind: PhantomData }
    }
}

impl<K: IdKind> TryFrom<i32> for Id<K> {
    type Error = InputError;

    fn try_from(value: i32) -> (r: Result<Self, InputError>) {
        Self::new(value)
    }
}

impl<K: IdKind> vstd::std_specs::convert::TryFromSpecImpl<i32> for Id<K> {
    open spec fn obeys_try_from_spec() -> bool {
        true
    }

    closed spec fn try_from_spec(value: i32) -> Result<Self, InputError> {
        if value > 0 {
            Ok(Id { value, kind: PhantomData })
        } else {
            Err(InputError::NonPositiveId { kind: K::NAME, value })
        }
    }
}

impl<K: IdKind> From<Id<K>> for i32 {
    fn from(value: Id<K>) -> (r: i32) {
        value.get()
    }
}

impl<K: IdKind> vstd::std_specs::convert::FromSpecImpl<Id<K>> for i32 {
    open spec fn obeys_from_spec() -> bool {
        true
    }

    open spec fn from_spec(value: Id<K>) -> i32 {
        value@
    }
}

impl From<Year> for i32 {
    fn from(value: Year) -> (r: i32) {
        value.get()
    }
}

impl vstd::std_specs::convert::FromSpecImpl<Year> for i32 {
    open spec fn obeys_from_spec() -> bool {
        true
    }

    open spec fn from_spec(value: Year) -> i32 {
        value@
    }
}

/// Parent reference with an explicit root (`-1`) or a valid id.
#[derive(Debug, Clone, Copy, PartialEq, Eq, Hash)]
pub enum ParentRef<T> {
    /// Root element (`-1` in the API).
    Root,
    /// Reference to the parent element.
    Id(T),
}

impl<K> ParentRef<Id<K>> {
    /// The raw value of the reference in the API: `-1` for the root.
    pub open spec fn raw_value(self) -> int {
        match self {
            ParentRef::Root => -1,
            ParentRef::Id(id) => id@ as int,
        }
    }
}

impl<K> ParentRef<Id<K>> {
    /// The raw value of the reference in the API: `-1` for the root.
    pub fn raw(self) -> (r: i32)
        ensures
            r == self.raw_value(),
    {
        match self {
            ParentRef::Root => -1,
            ParentRef::Id(id) => id.get(),
        }
    }
}

impl<K: IdKind> ParentRef<Id<K>> {
    /// Creates a reference from the raw value of the API.
    pub fn new(value: i32) -> (r: Result<Self, InputError>)
        ensures
            r is Ok <==> (value == -1 || value > 0),
            r matches Ok(p) ==> p.raw_value() == value && (p is Root <==> value == -1),
            r matches Err(e) ==> e == (InputError::InvalidParentRef { value }),
    {
        if value == -1 {
            Ok(ParentRef::Root)
        } else if value <= 0 {
            Err(InputError::InvalidParentRef { value })
        } else {
            match Id::<K>::new(value) {
                Ok(id) => Ok(ParentRef::Id(id)),
                Err(e) => Err(e),
            }
        }
    }
}

impl<T> ParentRef<T> {
    /// Returns `true` for the root reference.
    pub fn is_root(self) -> (r: bool)
        ensures
            r <==> self is Root,
    {
        match self {
            ParentRef::Root => true,
            ParentRef::Id(_) => false,
        }
    }

    /// Returns the parent id when the reference is not the root.
    pub fn id(self) -> (r: Option<T>)
        ensures
            r == (match self {
                ParentRef::Root => None,
                ParentRef::Id(v) => Some(v),
            }),
    {
        match self {
            ParentRef::Root => None,
            ParentRef::Id(value) => Some(value),
        }
    }
}

/// Periodicity of a series.
#[derive(Debug, Clone, Copy, PartialEq, Eq, Hash)]
pub enum Periodicity {
    /// Monthly periodicity.
    Month,
    /// Quarterly periodicity.
    Quarter,
    /// Yearly periodicity.
    Year,
}

/// The name of a periodicity in the API: `month`, `quarter` or `year`.
pub open spec fn periodicity_name(p: Periodicity) -> Seq<char> {
    match p {
        Periodicity::Month => "month"@,
        Periodicity::Quarter => "quarter"@,
        Periodicity::Year => "year"@,
    }
}

/// The periodicity whose name in the API is `text`, if any.
pub open spec fn periodicity_of(text: Seq<char>) -> Option<Periodicity> {
    if text == "month"@ {
        Some(Periodicity::Month)
    } else if text == "quarter"@ {
        Some(Periodicity::Quarter)
    } else if text == "year"@ {
        Some(Periodicity::Year)
    } else {
        None
    }
}

/// Reading the name of a periodicity gives the periodicity back.
pub proof fn law_periodicity_name_roundtrip(p: Periodicity)
    ensures
        periodicity_of(periodicity_name(p)) == Some(p),
{
    reveal_strlit("month");
    reveal_strlit("quarter");
    reveal_strlit("year");
    assert("month"@.len() != "quarter"@.len());
    assert("month"@.len() != "year"@.len());
    assert("quarter"@.len() != "year"@.len());
}

/// The names of the periodicities in the API are their variant names in
/// lower case, and a text names a periodicity exactly when it is one of them.
pub proof fn law_periodicity_names_are_lower_case(text: Seq<char>)
    ensures
        periodicity_name(Periodicity::Month) == seq!['m', 'o', 'n', 't', 'h'],
        periodicity_name(Periodicity::Quarter) == seq!['q', 'u', 'a', 'r', 't', 'e', 'r'],
        periodicity_name(Periodicity::Year) == seq!['y', 'e', 'a', 'r'],
        periodicity_of(seq!['m', 'o', 'n', 't', 'h']) == Some(Periodicity::Month),
        periodicity_of(seq!['q', 'u', 'a', 'r', 't', 'e', 'r']) == Some(Periodicity::Quarter),
        periodicity_of(seq!['y', 'e', 'a', 'r']) == Some(Periodicity::Year),
        periodicity_of(text) matches Some(p) ==> text == periodicity_name(p),
{
    reveal_strlit("month");
    reveal_strlit("quarter");
    reveal_strlit("year");
    assert("month"@ =~= seq!['m', 'o', 'n', 't', 'h']);
    assert("quarter"@ =~= seq!['q', 'u', 'a', 'r', 't', 'e', 'r']);
    assert("year"@ =~= seq!['y', 'e', 'a', 'r']);
}

impl Periodicity {
    /// The name of the periodicity in the API.
    pub fn as_str(self) -> (r: &'static str)
        ensures
            r@ == periodicity_name(self),
    {
        match self {
            Periodicity::Month => "month",
            Periodicity::Quarter => "quarter",
            Periodicity::Year => "year",
        }
    }

    /// The periodicity of a name of the API; `None` for any other text.
    pub fn from_text(text: &str) -> (r: Option<Self>)
        ensures
            r == periodicity_of(text@),
    {
        if str_eq(text, "month") {
            Some(Periodicity::Month)
        } else if str_eq(text, "quarter") {
            Some(Periodicity::Quarter)
        } else if str_eq(text, "year") {
            Some(Periodicity::Year)
        } else {
            None
        }
    }
}

/// Calendar year.
#[derive(Debug, Clone, Copy, PartialEq, Eq, PartialOrd, Ord, Hash)]
pub struct Year(i32);

impl View for Year {
    type V = i32;

    closed spec fn view(&self) -> i32 {
        self.0
    }
}

impl Year {
    /// Creates a year.
    pub fn new(value: i32) -> (r: Self)
        ensures
            r@ == value,
    {
        Year(value)
    }

    /// Returns the raw value of the year.
    pub fn get(self) -> (r: i32)
        ensures
            r == self@,
    {
        self.0
    }
}

/// Inclusive span of years.
#[derive(Debug, Clone, Copy, PartialEq, Eq, Hash)]
pub struct YearSpan {
    start: Year,
    end: Year,
}

impl View for YearSpan {
    type V = (i32, i32);

    closed spec fn view(&self) -> (i32, i32) {
        (self.start@, self.end@)
    }
}

impl YearSpan {
    #[verifier::type_invariant]
    closed spec fn ordered(self) -> bool {
        self.start@ <= self.end@
    }

    /// Creates a span, checking that `start <= end`.
    pub fn new(start: Year, end: Year) -> (r: Result<Self, InputError>)
        ensures
            r is Ok <==> start@ <= end@,
            r matches Ok(span) ==> span@ == (start@, end@),
            r matches Err(e) ==> e == (InputError::InvalidYearSpan { start: start@, end: end@ }),
    {
        if start.get() > end.get() {
            return Err(InputError::InvalidYearSpan { start: start.get(), end: end.get() });
        }
        Ok(YearSpan { start, end })
    }

    /// The first year of the span.
    pub fn start(self) -> (r: Year)
        ensures
            r@ == self@.0,
            self@.0 <= self@.1,
    {
        proof { use_type_invariant(&self); }
        self.start
    }

    /// The last year of the span.
    pub fn end(self) -> (r: Year)
        ensures
            r@ == self@.1,
            self@.0 <= self@.1,
    {
        proof { use_type_invariant(&self); }
        self.end
    }
}

} // verus!
