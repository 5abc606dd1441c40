use vstd::prelude::*;

use crate::types::{
    CategoryId, DatasetId, Id, IndicatorId, MeasureId, PublicationId, Year, YearSpan,
};

verus! {

/// One parameter of a query string: its key and its integer value.
pub type QueryParam = (&'static str, i32);

/// The parameters that repeat `key` once for every value of `values`, in order.
pub open spec fn keyed(key: &'static str, values: Seq<i32>) -> Seq<QueryParam> {
    Seq::new(values.len(), |i: int| (key, values[i]))
}

/// The repeated parameters hold one `(key, value)` pair per value, in order.
pub proof fn law_keyed_layout(key: &'static str, values: Seq<i32>)
    ensures
        keyed(key, values).len() == values.len(),
        forall|j: int| 0 <= j < values.len() ==> #[trigger] keyed(key, values)[j] == (key, values[j]),
{
}

/// The views of a sequence of identifiers.
pub open spec fn id_views<K>(ids: Seq<Id<K>>) -> Seq<i32> {
    Seq::new(ids.len(), |i: int| ids[i]@)
}

/// Appends one `(key, id)` parameter per identifier of `ids`, in order.
fn push_repeated_ids<K>(params: &mut Vec<QueryParam>, key: &'static str, ids: &[Id<K>])
    ensures
        final(params)@ == old(params)@ + keyed(key, id_views(ids@)),
{
    let ghost start = params@;
    let mut i: usize = 0;
    while i < ids.len()
        invariant
            i <= ids@.len(),
            params@ == start + keyed(key, id_views(ids@.take(i as int))),
        decreases ids@.len() - i,
    {
        let id = ids[i];
        params.push((key, id.get()));
        i = i + 1;
        proof {
            assert(keyed(key, id_views(ids@.take(i as int))) =~= keyed(
                key,
                id_views(ids@.take(i - 1)),
            ).push((key, ids@[i - 1]@)));
        }
    }
    proof {
        assert(ids@.take(i as int) =~= ids@);
    }
}

/// The span of years of a query, written as the `y1` and `y2` parameters.
#[derive(Debug, Clone, Copy)]
struct YearsRangeQuery {
    span: YearSpan,
}

impl YearsRangeQuery {
    fn from_span(span: YearSpan) -> (r: Self)
        ensures
            r.span@ == span@,
    {
        YearsRangeQuery { span }
    }

    fn span(self) -> (r: YearSpan)
        ensures
            r@ == self.span@,
    {
        self.span
    }

    fn start(self) -> (r: Year)
        ensures
            r@ == self.span@.0,
    {
        self.span.start()
    }

    fn end(self) -> (r: Year)
        ensures
            r@ == self.span@.1,
    {
        self.span.end()
    }

    /// The `y1` and `y2` parameters of the span.
    fn params(self) -> (r: Vec<QueryParam>)
        ensures
            r@ == seq![("y1", self.span@.0), ("y2", self.span@.1)],
    {
        let mut params: Vec<QueryParam> = Vec::new();
        params.push(("y1", self.start().get()));
        params.push(("y2", self.end().get()));
        proof {
            assert(params@ =~= seq![("y1", self.span@.0), ("y2", self.span@.1)]);
        }
        params
    }
}

/// The parameters of the `/data` method, as plain values.
pub struct DataQueryView {
    pub years: (i32, i32),
    pub dataset_id: i32,
    pub publication_id: i32,
    pub measure_id: Option<i32>,
}

/// Parameters of the `/data` method.
#[derive(Debug, Clone)]
pub struct DataQuery {
    years: YearsRangeQuery,
    dataset_id: DatasetId,
    publication_id: PublicationId,
    measure_id: Option<MeasureId>,
}

impl View for DataQuery {
    type V = DataQueryView;

    closed spec fn view(&self) -> DataQueryView {
        DataQueryView {
            years: self.years.span@,
            dataset_id: self.dataset_id@,
            publication_id: self.publication_id@,
            measure_id: match self.measure_id {
                Some(m) => Some(m@),
                None => None,
            },
        }
    }
}

/// The query string of `/data`: `y1`, `y2`, `datasetId`, `publicationId`,
/// then `measureId` when it is set.
pub open spec fn data_query_params(q: DataQueryView) -> Seq<QueryParam> {
    seq![
        ("y1", q.years.0),
        ("y2", q.years.1),
        ("datasetId", q.dataset_id),
        ("publicationId", q.publication_id),
    ] + match q.measure_id {
        Some(m) => seq![("measureId", m)],
        None => Seq::empty(),
    }
}

/// The query string of `/data` holds `y1`, `y2`, `datasetId` and
/// `publicationId`, in this order, then `measureId` exactly when a measure
/// is set.
pub proof fn law_data_query_params_layout(q: DataQueryView)
    ensures
        ({
            let r = data_query_params(q);
            &&& r.len() == if q.measure_id is Some { 5int } else { 4int }
            &&& r[0] == ("y1", q.years.0)
            &&& r[1] == ("y2", q.years.1)
            &&& r[2] == ("datasetId", q.dataset_id)
            &&& r[3] == ("publicationId", q.publication_id)
            &&& (q.measure_id matches Some(m) ==> r[4] == ("measureId", m))
        }),
{
}

impl DataQuery {
    /// Creates a query with the required fields.
    pub fn new(years: YearSpan, dataset_id: DatasetId, publication_id: PublicationId) -> (r: Self)
        ensures
            r@ == (DataQueryView {
                years: years@,
                dataset_id: dataset_id@,
                publication_id: publication_id@,
                measure_id: None,
            }),
    {
        DataQuery {
            years: YearsRangeQuery::from_span(years),
            dataset_id,
            publication_id,
            measure_id: None,
        }
    }

    /// Sets the `measureId` parameter.
    pub fn with_measure_id(self, measure_id: MeasureId) -> (r: Self)
        ensures
            r@ == (DataQueryView { measure_id: Some(measure_id@), ..self@ }),
    {
        let mut q = self;
        q.measure_id = Some(measure_id);
        q
    }

    /// The span of years of the query.
    pub fn years(&self) -> (r: YearSpan)
        ensures
            r@ == self@.years,
    {
        self.years.span()
    }

    /// The dataset identifier.
    pub fn dataset_id(&self) -> (r: DatasetId)
        ensures
            r@ == self@.dataset_id,
    {
        self.dataset_id
    }

    /// The publication identifier.
    pub fn publication_id(&self) -> (r: PublicationId)
        ensures
            r@ == self@.publication_id,
    {
        self.publication_id
    }

    /// The measure identifier, when it is set.
    pub fn measure_id(&self) -> (r: Option<MeasureId>)
        ensures
            r is Some <==> self@.measure_id is Some,
            r matches Some(m) ==> self@.measure_id == Some(m@),
    {
        self.measure_id
    }

    /// The parameters of the query string, in the order in which they are sent.
    pub fn query_params(&self) -> (r: Vec<QueryParam>)
        ensures
            r@ == data_query_params(self@),
    {
        let mut params = self.years.params();
        params.push(("datasetId", self.dataset_id.get()));
        params.push(("publicationId", self.publication_id.get()));
        if let Some(measure_id) = self.measure_id {
            params.push(("measureId", measure_id.get()));
        }
        proof {
            assert(params@ =~= data_query_params(self@));
        }
        params
    }
}

/// The parameters of the `/dataEx` and `/dataNew` methods, as plain values.
pub struct MultiIdsQueryView {
    pub root_id: i32,
    pub years: (i32, i32),
    pub i_ids: Seq<i32>,
    pub m1_ids: Seq<i32>,
    pub m2_ids: Seq<i32>,
}

/// The query string of a query with id filters: the root identifier under
/// `root_key`, `y1`, `y2`, then one repeated parameter per element of each filter.
pub open spec fn multi_ids_query_params(root_key: &'static str, q: MultiIdsQueryView) -> Seq<
    QueryParam,
> {
    seq![(root_key, q.root_id), ("y1", q.years.0), ("y2", q.years.1)] + keyed("i_ids", q.i_ids)
        + keyed("m1_ids", q.m1_ids) + keyed("m2_ids", q.m2_ids)
}

/// The query string of a query with id filters holds the root identifier,
/// `y1` and `y2`, then exactly one `i_ids`, one `m1_ids` and one `m2_ids`
/// parameter per element of each filter, in order, each filter whatever the
/// others hold.
pub proof fn law_multi_ids_query_params_layout(root_key: &'static str, q: MultiIdsQueryView)
    ensures
        ({
            let r = multi_ids_query_params(root_key, q);
            let a = 3 + q.i_ids.len();
            let b = a + q.m1_ids.len();
            &&& r.len() == 3 + q.i_ids.len() + q.m1_ids.len() + q.m2_ids.len()
            &&& r[0] == (root_key, q.root_id)
            &&& r[1] == ("y1", q.years.0)
            &&& r[2] == ("y2", q.years.1)
            &&& forall|j: int| 0 <= j < q.i_ids.len() ==> #[trigger] r[3 + j] == ("i_ids", q.i_ids[j])
            &&& forall|j: int| 0 <= j < q.m1_ids.len() ==> #[trigger] r[a + j] == ("m1_ids", q.m1_ids[j])
            &&& forall|j: int| 0 <= j < q.m2_ids.len() ==> #[trigger] r[b + j] == ("m2_ids", q.m2_ids[j])
        }),
{
}

#[derive(Debug, Clone)]
struct MultiIdsQuery<K> {
    root_id: Id<K>,
    years: YearsRangeQuery,
    i_ids: Vec<IndicatorId>,
    m1_ids: Vec<MeasureId>,
    m2_ids: Vec<MeasureId>,
}

impl<K> View for MultiIdsQuery<K> {
    type V = MultiIdsQueryView;

    closed spec fn view(&self) -> MultiIdsQueryView {
        MultiIdsQueryView {
            root_id: self.root_id@,
            years: self.years.span@,
            i_ids: id_views(self.i_ids@),
            m1_ids: id_views(self.m1_ids@),
            m2_ids: id_views(self.m2_ids@),
        }
    }
}

impl<K> MultiIdsQuery<K> {
    fn new(root_id: Id<K>, years: YearSpan) -> (r: Self)
        ensures
            r@ == (MultiIdsQueryView {
                root_id: root_id@,
                years: years@,
                i_ids: Seq::empty(),
                m1_ids: Seq::empty(),
                m2_ids: Seq::empty(),
            }),
    {
        let r = MultiIdsQuery {
            root_id,
            years: YearsRangeQuery::from_span(years),
            i_ids: Vec::new(),
            m1_ids: Vec::new(),
            m2_ids: Vec::new(),
        };
        proof {
            assert(id_views(r.i_ids@) =~= Seq::empty());
            assert(id_views(r.m1_ids@) =~= Seq::empty());
            assert(id_views(r.m2_ids@) =~= Seq::empty());
        }
        r
    }

    fn with_i_ids(self, ids: Vec<IndicatorId>) -> (r: Self)
        ensures
            r@ == (MultiIdsQueryView { i_ids: id_views(ids@), ..self@ }),
    {
        let mut q = self;
        q.i_ids = ids;
        q
    }

    fn with_m1_ids(self, ids: Vec<MeasureId>) -> (r: Self)
        ensures
            r@ == (MultiIdsQueryView { m1_ids: id_views(ids@), ..self@ }),
    {
        let mut q = self;
        q.m1_ids = ids;
        q
    }

    fn with_m2_ids(self, ids: Vec<MeasureId>) -> (r: Self)
        ensures
            r@ == (MultiIdsQueryView { m2_ids: id_views(ids@), ..self@ }),
    {
        let mut q = self;
        q.m2_ids = ids;
        q
    }

    fn root_id(&self) -> (r: Id<K>)
        ensures
            r@ == self@.root_id,
    {
        self.root_id
    }

    fn years(&self) -> (r: YearSpan)
        ensures
            r@ == self@.years,
    {
        self.years.span()
    }

    fn i_ids(&self) -> (r: &[IndicatorId])
        ensures
            id_views(r@) == self@.i_ids,
    {
        self.i_ids.as_slice()
    }

    fn m1_ids(&self) -> (r: &[MeasureId])
        ensures
            id_views(r@) == self@.m1_ids,
    {
        self.m1_ids.as_slice()
    }

    fn m2_ids(&self) -> (r: &[MeasureId])
        ensures
            id_views(r@) == self@.m2_ids,
    {
        self.m2_ids.as_slice()
    }

    fn query_params(&self, root_key: &'static str) -> (r: Vec<QueryParam>)
        ensures
            r@ == multi_ids_query_params(root_key, self@),
    {
        let mut params: Vec<QueryParam> = Vec::new();
        params.push((root_key, self.root_id.get()));
        params.push(("y1", self.years.start().get()));
        params.push(("y2", self.years.end().get()));
        push_repeated_ids(&mut params, "i_ids", self.i_ids.as_slice());
        push_repeated_ids(&mut params, "m1_ids", self.m1_ids.as_slice());
        push_repeated_ids(&mut params, "m2_ids", self.m2_ids.as_slice());
        proof {
            assert(params@ =~= multi_ids_query_params(root_key, self@));
        }
        params
    }
}


/// Parameters of the `/dataEx` method.
#[derive(Debug, Clone)]
pub struct DataExQuery {
    inner: MultiIdsQuery<crate::types::PublicationIdKind>,
}

impl View for DataExQuery {
    type V = MultiIdsQueryView;

    closed spec fn view(&self) -> MultiIdsQueryView {
        self.inner@
    }
}

impl DataExQuery {
    /// Creates a query with the required fields and empty id filters.
    pub fn new(publication_id: PublicationId, years: YearSpan) -> (r: Self)
        ensures
            r@ == (MultiIdsQueryView {
                root_id: publication_id@,
                years: years@,
                i_ids: Seq::empty(),
                m1_ids: Seq::empty(),
                m2_ids: Seq::empty(),
            }),
    {
        DataExQuery { inner: MultiIdsQuery::new(publication_id, years) }
    }

    /// Sets the `i_ids` filter.
    pub fn with_i_ids(self, ids: Vec<IndicatorId>) -> (r: Self)
        ensures
            r@ == (MultiIdsQueryView { i_ids: id_views(ids@), ..self@ }),
    {
        DataExQuery { inner: self.inner.with_i_ids(ids) }
    }

    /// Sets the `m1_ids` filter.
    pub fn with_m1_ids(self, ids: Vec<MeasureId>) -> (r: Self)
        ensures
            r@ == (MultiIdsQueryView { m1_ids: id_views(ids@), ..self@ }),
    {
        DataExQuery { inner: self.inner.with_m1_ids(ids) }
    }

    /// Sets the `m2_ids` filter.
    pub fn with_m2_ids(self, ids: Vec<MeasureId>) -> (r: Self)
        ensures
            r@ == (MultiIdsQueryView { m2_ids: id_views(ids@), ..self@ }),
    {
        DataExQuery { inner: self.inner.with_m2_ids(ids) }
    }

    /// The publication identifier.
    pub fn publication_id(&self) -> (r: PublicationId)
        ensures
            r@ == self@.root_id,
    {
        self.inner.root_id()
    }

    /// The span of years of the query.
    pub fn years(&self) -> (r: YearSpan)
        ensures
            r@ == self@.years,
    {
        self.inner.years()
    }

    /// The `i_ids` filter.
    pub fn i_ids(&self) -> (r: &[IndicatorId])
        ensures
            id_views(r@) == self@.i_ids,
    {
        self.inner.i_ids()
    }

    /// The `m1_ids` filter.
    pub fn m1_ids(&self) -> (r: &[MeasureId])
        ensures
            id_views(r@) == self@.m1_ids,
    {
        self.inner.m1_ids()
    }

    /// The `m2_ids` filter.
    pub fn m2_ids(&self) -> (r: &[MeasureId])
        ensures
            id_views(r@) == self@.m2_ids,
    {
        self.inner.m2_ids()
    }

    /// The parameters of the query string, in the order in which they are
    /// sent: `publicationId`, `y1`, `y2`, then each id filter as repeated keys.
    pub fn query_params(&self) -> (r: Vec<QueryParam>)
        ensures
            r@ == multi_ids_query_params("publicationId", self@),
    {
        self.inner.query_params("publicationId")
    }
}

/// Parameters of the `/dataNew` method.
#[derive(Debug, Clone)]
pub struct DataNewQuery {
    inner: MultiIdsQuery<crate::types::CategoryIdKind>,
}

impl View for DataNewQuery {
    type V = MultiIdsQueryView;

    closed spec fn view(&self) -> MultiIdsQueryView {
        self.inner@
    }
}

impl DataNewQuery {
    /// Creates a query with the required fields and empty id filters.
    pub fn new(category_id: CategoryId, years: YearSpan) -> (r: Self)
        ensures
            r@ == (MultiIdsQueryView {
                root_id: category_id@,
                years: years@,
                i_ids: Seq::empty(),
                m1_ids: Seq::empty(),
                m2_ids: Seq::empty(),
            }),
    {
        DataNewQuery { inner: MultiIdsQuery::new(category_id, years) }
    }

    /// Sets the `i_ids` filter.
    pub fn with_i_ids(self, ids: Vec<IndicatorId>) -> (r: Self)
        ensures
            r@ == (MultiIdsQueryView { i_ids: id_views(ids@), ..self@ }),
    {
        DataNewQuery { inner: self.inner.with_i_ids(ids) }
    }

    /// Sets the `m1_ids` filter.
    pub fn with_m1_ids(self, ids: Vec<MeasureId>) -> (r: Self)
        ensures
            r@ == (MultiIdsQueryView { m1_ids: id_views(ids@), ..self@ }),
    {
        DataNewQuery { inner: self.inner.with_m1_ids(ids) }
    }

    /// Sets the `m2_ids` filter.
    pub fn with_m2_ids(self, ids: Vec<MeasureId>) -> (r: Self)
        ensures
            r@ == (MultiIdsQueryView { m2_ids: id_views(ids@), ..self@ }),
    {
        DataNewQuery { inner: self.inner.with_m2_ids(ids) }
    }

    /// The category identifier.
    pub fn category_id(&self) -> (r: CategoryId)
        ensures
            r@ == self@.root_id,
    {
        self.inner.root_id()
    }

    /// The span of years of the query.
    pub fn years(&self) -> (r: YearSpan)
        ensures
            r@ == self@.years,
    {
        self.inner.years()
    }

    /// The `i_ids` filter.
    pub fn i_ids(&self) -> (r: &[IndicatorId])
        ensures
            id_views(r@) == self@.i_ids,
    {
        self.inner.i_ids()
    }

    /// The `m1_ids` filter.
    pub fn m1_ids(&self) -> (r: &[MeasureId])
        ensures
            id_views(r@) == self@.m1_ids,
    {
        self.inner.m1_ids()
    }

    /// The `m2_ids` filter.
    pub fn m2_ids(&self) -> (r: &[MeasureId])
        ensures
            id_views(r@) == self@.m2_ids,
    {
        self.inner.m2_ids()
    }

    /// The parameters of the query string, in the order in which they are
    /// sent: `categoryId`, `y1`, `y2`, then each id filter as repeated keys.
    pub fn query_params(&self) -> (r: Vec<QueryParam>)
        ensures
            r@ == multi_ids_query_params("categoryId", self@),
    {
        self.inner.query_params("categoryId")
    }
}

/// The query string `publicationId=<id>`.
pub fn publication_id_query(publication_id: PublicationId) -> (r: Vec<QueryParam>)
    ensures
        r@ == seq![("publicationId", publication_id@)],
{
    let mut params: Vec<QueryParam> = Vec::new();
    params.push(("publicationId", publication_id.get()));
    proof {
        assert(params@ =~= seq![("publicationId", publication_id@)]);
    }
    params
}

/// The query string `datasetId=<id>`.
pub fn dataset_id_query(dataset_id: DatasetId) -> (r: Vec<QueryParam>)
    ensures
        r@ == seq![("datasetId", dataset_id@)],
{
    let mut params: Vec<QueryParam> = Vec::new();
    params.push(("datasetId", dataset_id.get()));
    proof {
        assert(params@ =~= seq![("datasetId", dataset_id@)]);
    }
    params
}

/// The query string of `/years`: `datasetId`, then `measureId` when it is given.
pub fn years_query(dataset_id: DatasetId, measure_id: Option<MeasureId>) -> (r: Vec<QueryParam>)
    ensures
        r@ == seq![("datasetId", dataset_id@)] + match measure_id {
            Some(m) => seq![("measureId", m@)],
            None => Seq::<QueryParam>::empty(),
        },
{
    let mut params: Vec<QueryParam> = Vec::new();
    params.push(("datasetId", dataset_id.get()));
    if let Some(m) = measure_id {
        params.push(("measureId", m.get()));
    }
    proof {
        assert(params@ =~= seq![("datasetId", dataset_id@)] + match measure_id {
            Some(m) => seq![("measureId", m@)],
            None => Seq::<QueryParam>::empty(),
        });
    }
    params
}

/// The query string of `/yearsEx`: `publicationId`, then one `ids` parameter
/// per dataset, in order.
pub fn years_ex_query(publication_id: PublicationId, ids: &[DatasetId]) -> (r: Vec<QueryParam>)
    ensures
        r@ == seq![("publicationId", publication_id@)] + keyed("ids", id_views(ids@)),
{
    let mut params: Vec<QueryParam> = Vec::new();
    params.push(("publicationId", publication_id.get()));
    push_repeated_ids(&mut params, "ids", ids);
    proof {
        assert(params@ =~= seq![("publicationId", publication_id@)] + keyed("ids", id_views(ids@)));
    }
    params
}

} // verus!
