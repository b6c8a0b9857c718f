use crate::dispatch::{metric_data_from, DataPointStores, MetricData};
use crate::error::Error;
use crate::scan::{
    lemma_zero_deltas_single_group, opens_group, opens_scope, running_id, Accumulator,
};
use crate::table::{
    bool_at_or_default, first_index, i32_at_or_default, metrics_bind_error, metrics_bind_fails,
    resource_bind_error, resource_bind_fails, scope_bind_error, scope_bind_fails,
    string_at_or_default, struct_of, u16_at_or_default, u32_at_or_default, u8_at_or_default,
    ColumnValues, MetricsArrays, ResourceArrays, ScopeArrays, Table,
};
use std::collections::HashMap;
use vstd::prelude::*;

verus! {

broadcast use vstd::std_specs::hash::group_hash_axioms;

/// The entity that emits telemetry.
pub struct Resource<A> {
    pub attributes: Vec<A>,
    pub dropped_attributes_count: u32,
}

/// A named, versioned unit of instrumentation within a resource.
pub struct InstrumentationScope<A> {
    pub name: String,
    pub version: String,
    pub attributes: Vec<A>,
    pub dropped_attributes_count: u32,
}

/// One metric row of the table.
pub struct Metric<N, H, E, S> {
    pub name: String,
    pub description: String,
    pub unit: String,
    pub data: MetricData<N, H, E, S>,
}

/// The metrics of one scope.
pub struct ScopeMetrics<A, N, H, E, S> {
    pub scope: InstrumentationScope<A>,
    pub metrics: Vec<Metric<N, H, E, S>>,
    pub schema_url: String,
}

/// The scopes of one resource.
pub struct ResourceMetrics<A, N, H, E, S> {
    pub resource: Resource<A>,
    pub scope_metrics: Vec<ScopeMetrics<A, N, H, E, S>>,
    pub schema_url: String,
}

/// The decoded export request.
pub struct ExportMetrics<A, N, H, E, S> {
    pub resource_metrics: Vec<ResourceMetrics<A, N, H, E, S>>,
}

/// The auxiliary data of one decode: attribute stores keyed by absolute
/// resource and scope identifier, the metric identifier's running total,
/// and the data-point stores keyed by absolute metric identifier.
pub struct RelatedData<A, N, H, E, S> {
    pub metric_id: u16,
    pub res_attr_map_store: HashMap<u16, Vec<A>>,
    pub scope_attr_map_store: HashMap<u16, Vec<A>>,
    pub stores: DataPointStores<N, H, E, S>,
}

impl<A, N, H, E, S> RelatedData<A, N, H, E, S> {
    /// Adds a metric identifier delta to the running total and returns it.
    pub fn metric_id_from_delta(&mut self, delta: u16) -> (r: u16)
        ensures
            r as int == (old(self).metric_id + delta) % 65536,
            final(self).metric_id == r,
            final(self).res_attr_map_store == old(self).res_attr_map_store,
            final(self).scope_attr_map_store == old(self).scope_attr_map_store,
            final(self).stores == old(self).stores,
    {
        let s: u32 = self.metric_id as u32 + delta as u32;
        self.metric_id = (s % 65536) as u16;
        self.metric_id
    }
}

/// Number of metrics under a sequence of scopes.
pub open spec fn metrics_in_scopes<A, N, H, E, S>(s: Seq<ScopeMetrics<A, N, H, E, S>>) -> nat
    decreases s.len(),
{
    if s.len() == 0 {
        0
    } else {
        metrics_in_scopes(s.drop_last()) + s.last().metrics@.len()
    }
}

/// Number of metrics under a sequence of resources.
pub open spec fn metrics_in<A, N, H, E, S>(r: Seq<ResourceMetrics<A, N, H, E, S>>) -> nat
    decreases r.len(),
{
    if r.len() == 0 {
        0
    } else {
        metrics_in(r.drop_last()) + metrics_in_scopes(r.last().scope_metrics@)
    }
}

/// Metrics held by an open resource and an open scope.
pub open spec fn open_metrics<A, N, H, E, S>(
    res: Option<ResourceMetrics<A, N, H, E, S>>,
    scope: Option<ScopeMetrics<A, N, H, E, S>>,
) -> nat {
    (match res {
        Some(r) => metrics_in_scopes(r.scope_metrics@),
        None => 0nat,
    }) + (match scope {
        Some(sc) => sc.metrics@.len(),
        None => 0nat,
    })
}

/// Cell `k` of a column, or `d` when it is null or past the end.
pub open spec fn cell_or<T>(col: Seq<Option<T>>, k: int, d: T) -> T {
    if 0 <= k < col.len() && col[k] is Some {
        col[k]->Some_0
    } else {
        d
    }
}

/// The resource identifier deltas of each row.
pub open spec fn resource_deltas(t: Table) -> Seq<u16> {
    let c = struct_of(t.columns@, "resource"@);
    match c[first_index(c, "id"@)].values {
        ColumnValues::UInt16(v) => Seq::new(t.num_rows as nat, |k: int| cell_or(v@, k, 0u16)),
        _ => Seq::empty(),
    }
}

/// The scope identifier deltas of each row.
pub open spec fn scope_deltas(t: Table) -> Seq<u16> {
    let c = struct_of(t.columns@, "scope"@);
    match c[first_index(c, "id"@)].values {
        ColumnValues::UInt16(v) => Seq::new(t.num_rows as nat, |k: int| cell_or(v@, k, 0u16)),
        _ => Seq::empty(),
    }
}

/// The metric type code of each row; a null cell counts as 0.
pub open spec fn type_codes(t: Table) -> Seq<u8> {
    let c = t.columns@;
    match c[first_index(c, "metric_type"@)].values {
        ColumnValues::UInt8(v) => Seq::new(t.num_rows as nat, |k: int| cell_or(v@, k, 0u8)),
        _ => Seq::empty(),
    }
}

/// The metric identifier deltas of each row.
pub open spec fn metric_deltas(t: Table) -> Seq<u16> {
    let c = t.columns@;
    match c[first_index(c, "id"@)].values {
        ColumnValues::UInt16(v) => Seq::new(t.num_rows as nat, |k: int| cell_or(v@, k, 0u16)),
        _ => Seq::empty(),
    }
}

/// Absolute metric identifier of row `k`, from the running total `start`.
pub open spec fn metric_id_at(start: u16, d: Seq<u16>, k: int) -> u16
    decreases k + 1,
{
    if k < 0 {
        start
    } else {
        ((metric_id_at(start, d, k - 1) + d[k]) % 65536) as u16
    }
}

/// The store that type `code` reads holds nothing more for `id`.
pub open spec fn taken<N, H, E, S>(st: DataPointStores<N, H, E, S>, code: u8, id: u16) -> bool {
    if code == 1 || code == 2 {
        !st.number.entries@.contains_key(id)
    } else if code == 3 {
        !st.histogram.entries@.contains_key(id)
    } else if code == 4 {
        !st.e_histogram.entries@.contains_key(id)
    } else if code == 5 {
        !st.summary.entries@.contains_key(id)
    } else {
        true
    }
}

/// The `dropped_attributes_count` cells of the resource group.
pub open spec fn resource_dropped(t: Table) -> Seq<Option<u32>> {
    let c = struct_of(t.columns@, "resource"@);
    match c[first_index(c, "dropped_attributes_count"@)].values {
        ColumnValues::UInt32(v) => v@,
        _ => Seq::empty(),
    }
}

/// The `schema_url` cells of the resource group.
pub open spec fn resource_schema_url(t: Table) -> Seq<Option<String>> {
    let c = struct_of(t.columns@, "resource"@);
    match c[first_index(c, "schema_url"@)].values {
        ColumnValues::Utf8(v) => v@,
        _ => Seq::empty(),
    }
}

/// Text of cell `k` of a string column; empty when null or past the end.
pub open spec fn text_at(col: Seq<Option<String>>, k: int) -> Seq<char> {
    if 0 <= k < col.len() && col[k] is Some {
        (col[k]->Some_0)@
    } else {
        Seq::empty()
    }
}

/// `r` is the resource opened by row `k`: the row's resource columns and
/// the attributes stored for its absolute identifier.
pub open spec fn resource_of_row<A: Clone, N, H, E, S>(
    t: Table,
    store: Map<u16, Vec<A>>,
    k: int,
    r: ResourceMetrics<A, N, H, E, S>,
) -> bool {
    &&& opens_group(resource_deltas(t), k)
    &&& r.resource.dropped_attributes_count == cell_or(resource_dropped(t), k, 0u32)
    &&& r.schema_url@ == text_at(resource_schema_url(t), k)
    &&& copies_attrs(store, running_id(resource_deltas(t), k) as u16, r.resource.attributes@)
}

/// The rows among the first `k` that open a group, in order.
pub open spec fn opening_rows(d: Seq<u16>, k: int) -> Seq<int>
    decreases k,
{
    if k <= 0 {
        Seq::empty()
    } else if opens_group(d, k - 1) {
        opening_rows(d, k - 1).push(k - 1)
    } else {
        opening_rows(d, k - 1)
    }
}

/// Resource `j` is the one opened by row `rows[j]`, the rows ascending.
pub open spec fn resources_from_rows<A: Clone, N, H, E, S>(
    t: Table,
    store: Map<u16, Vec<A>>,
    rows: Seq<int>,
    res: Seq<ResourceMetrics<A, N, H, E, S>>,
) -> bool {
    &&& rows.len() == res.len()
    &&& forall|j: int, i: int| 0 <= j < i < rows.len() ==> rows[j] < rows[i]
    &&& forall|j: int| 0 <= j < rows.len() ==> 0 <= #[trigger] rows[j] < t.num_rows
    &&& forall|j: int| 0 <= j < rows.len() ==> resource_of_row(t, store, rows[j], #[trigger] res[j])
}

/// A type code that names a metric shape.
pub open spec fn valid_code(c: u8) -> bool {
    1 <= c <= 5
}

/// Row `k` is the first with an invalid type code, and `e` is its error.
pub open spec fn row_error(codes: Seq<u8>, k: int, e: Error) -> bool {
    &&& 0 <= k < codes.len()
    &&& forall|j: int| 0 <= j < k ==> valid_code(#[trigger] codes[j])
    &&& !valid_code(codes[k])
    &&& codes[k] == 0 ==> e == Error::EmptyMetricType
    &&& codes[k] > 5 ==> e == (Error::UnrecognizedMetricType { metric_type: codes[k] as i32 })
}

/// How many of the first `k` rows open a group.
pub open spec fn count_opens(d: Seq<u16>, k: int) -> nat
    decreases k,
{
    if k <= 0 {
        0
    } else {
        count_opens(d, k - 1) + if opens_group(d, k - 1) {
            1nat
        } else {
            0nat
        }
    }
}

/// `attrs` is a copy, in store order, of the attributes stored for `id`;
/// an identifier with no entry has no attributes.
pub open spec fn copies_attrs<A: Clone>(store: Map<u16, Vec<A>>, id: u16, attrs: Seq<A>) -> bool {
    if store.contains_key(id) {
        &&& attrs.len() == store[id]@.len()
        &&& forall|i: int| 0 <= i < attrs.len() ==> cloned::<A>(store[id]@[i], #[trigger] attrs[i])
    } else {
        attrs.len() == 0
    }
}

/// A copy of the attributes stored for `id`, or none.
fn attributes_of<A: Clone>(store: &HashMap<u16, Vec<A>>, id: u16) -> (r: Vec<A>)
    ensures
        copies_attrs(store@, id, r@),
{
    match store.get(&id) {
        Some(v) => v.clone(),
        None => Vec::new(),
    }
}

/// Appends the open scope, if any, to the open resource.
fn close_scope<A, N, H, E, S>(
    res: &mut Option<ResourceMetrics<A, N, H, E, S>>,
    scope: Option<ScopeMetrics<A, N, H, E, S>>,
)
    ensures
        (*final(res) is Some) <==> (*old(res) is Some),
        scope is None ==> *final(res) == *old(res),
        *old(res) matches Some(o) ==> (*final(res) matches Some(f) && f.resource == o.resource),
        scope matches Some(sc) ==> (*old(res) matches Some(o) ==> (*final(res) matches Some(f)
            && f.scope_metrics@ == o.scope_metrics@.push(sc))),
        *old(res) is Some ==> open_metrics(*final(res), None) == open_metrics(*old(res), scope),
        *old(res) matches Some(o) ==> (*final(res) matches Some(f) && f.schema_url == o.schema_url),
{
    match scope {
        Some(sc) => match res {
            Some(r) => {
                let ghost before = r.scope_metrics@;
                r.scope_metrics.push(sc);
                assert(r.scope_metrics@.drop_last() =~= before);
            },
            None => {},
        },
        None => {},
    }
}

/// Builds the export request from a table and its auxiliary data.
///
/// The three column groups are bound first (resource, scope, metric); the
/// first failure is returned and the auxiliary data is left untouched.
/// Then each row adds its deltas to the running identifiers, opens a
/// resource and a scope where they change, and becomes one metric whose
/// data points are moved out of the store of its type. The first row whose
/// type code is not a metric shape stops the decode with its error.
pub fn metrics_from<A: Clone, N, H, E, S>(
    table: &Table,
    related: &mut RelatedData<A, N, H, E, S>,
) -> (r: Result<ExportMetrics<A, N, H, E, S>, Error>)
    requires
        table.wf(),
    ensures
        resource_bind_fails(table.columns@) ==> (r matches Err(e) && resource_bind_error(
            table.columns@,
            e,
        )),
        !resource_bind_fails(table.columns@) && scope_bind_fails(table.columns@) ==> (r matches Err(
            e,
        ) && scope_bind_error(table.columns@, e)),
        !resource_bind_fails(table.columns@) && !scope_bind_fails(table.columns@)
            && metrics_bind_fails(table.columns@) ==> (r matches Err(e) && metrics_bind_error(
            table.columns@,
            e,
        )),
        resource_bind_fails(table.columns@) || scope_bind_fails(table.columns@) || metrics_bind_fails(
            table.columns@,
        ) ==> *final(related) == *old(related),
        !resource_bind_fails(table.columns@) && !scope_bind_fails(table.columns@)
            && !metrics_bind_fails(table.columns@) ==> {
            &&& r is Ok <==> forall|k: int|
                0 <= k < table.num_rows ==> valid_code(#[trigger] type_codes(*table)[k])
            &&& r matches Err(e) ==> exists|k: int| row_error(type_codes(*table), k, e)
        },
        r is Ok ==> forall|k: int|
            0 <= k < table.num_rows ==> taken(
                final(related).stores,
                #[trigger] type_codes(*table)[k],
                metric_id_at(old(related).metric_id, metric_deltas(*table), k),
            ),
        r matches Ok(m) ==> (table.num_rows > 0 && forall|k: int|
            0 <= k < table.num_rows ==> #[trigger] resource_deltas(*table)[k] == 0
                && scope_deltas(*table)[k] == 0) ==> {
            &&& m.resource_metrics@.len() == 1
            &&& m.resource_metrics@[0].scope_metrics@.len() == 1
            &&& m.resource_metrics@[0].scope_metrics@[0].metrics@.len() == table.num_rows
        },
        r matches Ok(m) ==> (table.num_rows > 0 ==> copies_attrs(
            old(related).res_attr_map_store@,
            resource_deltas(*table)[0],
            m.resource_metrics@[0].resource.attributes@,
        )),
        r matches Ok(m) ==> metrics_in(m.resource_metrics@) == table.num_rows,
        r matches Ok(m) ==> resources_from_rows(
            *table,
            old(related).res_attr_map_store@,
            opening_rows(resource_deltas(*table), table.num_rows as int),
            m.resource_metrics@,
        ),
        r matches Ok(m) ==> m.resource_metrics@.len() == count_opens(
            resource_deltas(*table),
            table.num_rows as int,
        ),
{
    let resource_arrays = ResourceArrays::bind(table)?;
    let scope_arrays = ScopeArrays::bind(table)?;
    let metrics_arrays = MetricsArrays::bind(table)?;
    let ghost rd = resource_deltas(*table);
    let ghost sd = scope_deltas(*table);
    let ghost codes = type_codes(*table);
    let ghost md = metric_deltas(*table);
    let ghost start = related.metric_id;
    let ghost mut open_rows: Seq<int> = Seq::empty();
    let ghost mut cur_row: int = 0;
    let n = table.num_rows;
    let mut acc = Accumulator::new();
    let mut out: Vec<ResourceMetrics<A, N, H, E, S>> = Vec::new();
    let mut cur_res: Option<ResourceMetrics<A, N, H, E, S>> = None;
    let mut cur_scope: Option<ScopeMetrics<A, N, H, E, S>> = None;
    let mut idx: usize = 0;
    while idx < n
        invariant
            n == table.num_rows,
            !resource_bind_fails(table.columns@),
            !scope_bind_fails(table.columns@),
            !metrics_bind_fails(table.columns@),
            rd.len() == n,
            sd.len() == n,
            codes.len() == n,
            rd == resource_deltas(*table),
            codes == type_codes(*table),
            md == metric_deltas(*table),
            md.len() == n,
            forall|k: int| 0 <= k < n ==> #[trigger] md[k] == cell_or(metrics_arrays.id@, k, 0u16),
            related.metric_id == metric_id_at(start, md, idx - 1),
            forall|j: int|
                0 <= j < idx ==> taken(related.stores, #[trigger] codes[j], metric_id_at(start, md, j)),
            forall|k: int| 0 <= k < n ==> #[trigger] rd[k] == cell_or(resource_arrays.id@, k, 0u16),
            forall|k: int| 0 <= k < n ==> #[trigger] sd[k] == cell_or(scope_arrays.id@, k, 0u16),
            forall|k: int| 0 <= k < n ==> #[trigger] codes[k] == cell_or(metrics_arrays.metric_type@, k, 0u8),
            0 <= idx <= n,
            acc.res_id == running_id(rd, idx - 1),
            acc.scope_id == running_id(sd, idx - 1),
            idx == 0 ==> acc.prev_res_id is None && acc.prev_scope_id is None,
            idx > 0 ==> acc.prev_res_id == Some(acc.res_id) && acc.prev_scope_id == Some(acc.scope_id),
            idx == 0 <==> cur_res is None,
            idx > 0 ==> cur_scope is Some,
            idx == 0 ==> cur_scope is None,
            out@.len() + (if cur_res is Some { 1int } else { 0int }) == count_opens(rd, idx as int),
            forall|j: int| 0 <= j < idx ==> valid_code(#[trigger] codes[j]),
            related.res_attr_map_store == old(related).res_attr_map_store,
            metrics_in(out@) + open_metrics(cur_res, cur_scope) == idx,
            resource_arrays.dropped_attributes_count@ == resource_dropped(*table),
            resource_arrays.schema_url@ == resource_schema_url(*table),
            open_rows.len() == out@.len(),
            idx == 0 ==> open_rows == Seq::<int>::empty(),
            idx > 0 ==> open_rows.push(cur_row) == opening_rows(rd, idx as int),
            forall|j: int, i: int| 0 <= j < i < open_rows.len() ==> open_rows[j] < open_rows[i],
            forall|j: int| 0 <= j < open_rows.len() ==> 0 <= #[trigger] open_rows[j] < cur_row,
            idx > 0 ==> 0 <= cur_row < idx,
            idx > 0 ==> acc.res_id == running_id(rd, cur_row),
            forall|j: int| 0 <= j < open_rows.len() ==> resource_of_row(
                *table,
                related.res_attr_map_store@,
                open_rows[j],
                #[trigger] out@[j],
            ),
            cur_res matches Some(cr) ==> resource_of_row(*table, related.res_attr_map_store@, cur_row, cr),
            idx > 0 ==> copies_attrs(
                related.res_attr_map_store@,
                rd[0],
                if out@.len() > 0 {
                    out@[0].resource.attributes@
                } else {
                    cur_res->Some_0.resource.attributes@
                },
            ),
            (idx > 0 && forall|j: int| 0 < j < idx ==> !#[trigger] opens_scope(rd, sd, j)) ==> {
                &&& out@.len() == 0
                &&& cur_res matches Some(cr) && cr.scope_metrics@.len() == 0
                &&& cur_scope matches Some(cs) && cs.metrics@.len() == idx
            },
        decreases n - idx,
    {
        let res_delta = u16_at_or_default(resource_arrays.id, idx);
        let scope_delta = u16_at_or_default(scope_arrays.id, idx);
        let b = acc.advance(res_delta, scope_delta);
        assert(b.new_resource == opens_group(rd, idx as int));
        assert(b.new_scope == opens_scope(rd, sd, idx as int));
        assert(idx == 0 ==> acc.res_id == rd[0]) by {
            reveal_with_fuel(running_id, 2);
        }
        if b.new_resource {
            let resource = Resource {
                attributes: attributes_of(&related.res_attr_map_store, acc.res_id),
                dropped_attributes_count: u32_at_or_default(
                    resource_arrays.dropped_attributes_count,
                    idx,
                ),
            };
            let opened = ResourceMetrics {
                resource,
                scope_metrics: Vec::new(),
                schema_url: string_at_or_default(resource_arrays.schema_url, idx),
            };
            close_scope(&mut cur_res, cur_scope);
            cur_scope = None;
            match cur_res {
                Some(done) => {
                    let ghost before = out@;
                    out.push(done);
                    assert(out@.drop_last() =~= before);
                    proof {
                        open_rows = open_rows.push(cur_row);
                    }
                },
                None => {},
            }
            cur_res = Some(opened);
            proof {
                cur_row = idx as int;
            }
        }
        if b.new_scope {
            let scope = InstrumentationScope {
                name: string_at_or_default(scope_arrays.name, idx),
                version: string_at_or_default(scope_arrays.version, idx),
                attributes: attributes_of(&related.scope_attr_map_store, acc.scope_id),
                dropped_attributes_count: u32_at_or_default(
                    scope_arrays.dropped_attributes_count,
                    idx,
                ),
            };
            let opened = ScopeMetrics {
                scope,
                metrics: Vec::new(),
                schema_url: string_at_or_default(metrics_arrays.schema_url, idx),
            };
            close_scope(&mut cur_res, cur_scope);
            cur_scope = Some(opened);
        }
        let metric_id = related.metric_id_from_delta(u16_at_or_default(metrics_arrays.id, idx));
        let code = u8_at_or_default(metrics_arrays.metric_type, idx);
        let data = match metric_data_from(
            code,
            i32_at_or_default(metrics_arrays.aggregation_temporality, idx),
            bool_at_or_default(metrics_arrays.is_monotonic, idx),
            metric_id,
            &mut related.stores,
        ) {
            Ok(d) => d,
            Err(e) => {
                assert(row_error(codes, idx as int, e));
                return Err(e);
            },
        };
        assert forall|j: int| 0 <= j <= idx implies taken(related.stores, #[trigger] codes[j], metric_id_at(start, md, j)) by {
        }
        let metric = Metric {
            name: string_at_or_default(metrics_arrays.name, idx),
            description: string_at_or_default(metrics_arrays.description, idx),
            unit: string_at_or_default(metrics_arrays.unit, idx),
            data,
        };
        match &mut cur_scope {
            Some(sc) => sc.metrics.push(metric),
            None => {},
        }
        assert(opening_rows(rd, 0) == Seq::<int>::empty());
        assert(opening_rows(rd, idx as int + 1) == if opens_group(rd, idx as int) {
            opening_rows(rd, idx as int).push(idx as int)
        } else {
            opening_rows(rd, idx as int)
        });
        idx = idx + 1;
    }
    proof {
        if n > 0 && forall|k: int| 0 <= k < n ==> #[trigger] rd[k] == 0 && sd[k] == 0 {
            assert forall|j: int| 0 <= j < sd.len() implies sd[j] == 0 by {
                assert(rd[j] == 0);
            }
            lemma_zero_deltas_single_group(rd, sd);
        }
    }
    close_scope(&mut cur_res, cur_scope);
    match cur_res {
        Some(done) => {
            let ghost before = out@;
            out.push(done);
            assert(out@.drop_last() =~= before);
            proof {
                open_rows = open_rows.push(cur_row);
            }
        },
        None => {},
    }
    assert(resources_from_rows(*table, old(related).res_attr_map_store@, open_rows, out@));
    assert(open_rows == opening_rows(rd, n as int));
    Ok(ExportMetrics { resource_metrics: out })
}

} // verus!
