use otel_arrow_rust::decode::{metrics_from, RelatedData};
use otel_arrow_rust::dispatch::{DataPointStores, MetricData};
use otel_arrow_rust::error::Error;
use otel_arrow_rust::table::{Column, ColumnValues, Table};
use std::collections::HashMap;

fn col(name: &str, values: ColumnValues) -> Column {
    Column { name: name.to_string(), values }
}

fn strs(n: usize) -> ColumnValues {
    ColumnValues::Utf8(vec![None; n])
}

/// A table of `codes.len()` rows with the given deltas and type codes.
fn table(res: Vec<u16>, scope: Vec<u16>, codes: Vec<u8>) -> Table {
    let n = codes.len();
    let resource = col(
        "resource",
        ColumnValues::Struct(vec![
            col("id", ColumnValues::UInt16(res.into_iter().map(Some).collect())),
            col("dropped_attributes_count", ColumnValues::UInt32(vec![None; n])),
            col("schema_url", strs(n)),
        ]),
    );
    let scope = col(
        "scope",
        ColumnValues::Struct(vec![
            col("name", strs(n)),
            col("version", strs(n)),
            col("dropped_attributes_count", ColumnValues::UInt32(vec![None; n])),
            col("id", ColumnValues::UInt16(scope.into_iter().map(Some).collect())),
        ]),
    );
    let mut columns = vec![resource, scope];
    columns.push(col("id", ColumnValues::UInt16(vec![Some(0); n])));
    columns.push(col("metric_type", ColumnValues::UInt8(codes.into_iter().map(Some).collect())));
    columns.push(col("name", ColumnValues::Utf8((0..n).map(|i| Some(format!("m{}", i))).collect())));
    columns.push(col("description", strs(n)));
    columns.push(col("schema_url", ColumnValues::Utf8(vec![Some("scope-url".to_string()); n])));
    columns.push(col("unit", strs(n)));
    columns.push(col("aggregation_temporality", ColumnValues::Int32(vec![Some(1); n])));
    columns.push(col("is_monotonic", ColumnValues::Boolean(vec![Some(true); n])));
    Table { num_rows: n, columns }
}

type Related = RelatedData<&'static str, u32, u8, u16, i64>;

fn related() -> Related {
    RelatedData {
        metric_id: 0,
        res_attr_map_store: HashMap::new(),
        scope_attr_map_store: HashMap::new(),
        stores: DataPointStores::new(),
    }
}

#[test]
fn zero_deltas_decode_to_one_resource_one_scope() {
    let t = table(vec![0, 0, 0], vec![0, 0, 0], vec![1, 2, 5]);
    let mut rd = related();
    let m = metrics_from(&t, &mut rd).ok().unwrap();
    assert_eq!(m.resource_metrics.len(), 1);
    assert_eq!(m.resource_metrics[0].scope_metrics.len(), 1);
    let metrics = &m.resource_metrics[0].scope_metrics[0].metrics;
    assert_eq!(metrics.len(), 3);
    assert_eq!(metrics[2].name, "m2");
    assert_eq!(m.resource_metrics[0].scope_metrics[0].schema_url, "scope-url");
}

#[test]
fn resource_changes_open_new_groups() {
    let t = table(vec![0, 1, 0, 1], vec![0, 0, 1, 0], vec![1, 1, 1, 1]);
    let mut rd = related();
    let m = metrics_from(&t, &mut rd).ok().unwrap();
    assert_eq!(m.resource_metrics.len(), 3);
    assert_eq!(m.resource_metrics[1].scope_metrics.len(), 2);
    assert_eq!(m.resource_metrics[2].scope_metrics[0].metrics.len(), 1);
}

#[test]
fn decode_without_resource_column_fails() {
    let mut t = table(vec![0], vec![0], vec![1]);
    t.columns.remove(0);
    let mut rd = related();
    rd.stores.number.insert(0, vec![1]);
    match metrics_from(&t, &mut rd) {
        Err(Error::ColumnNotFound { name }) => assert_eq!(name, "resource"),
        _ => panic!("expected ColumnNotFound"),
    }
    assert_eq!(rd.stores.number.take(0), vec![1]);
}

#[test]
fn decode_with_type_six_fails_whole_table() {
    let t = table(vec![0, 0, 0], vec![0, 0, 0], vec![1, 2, 6]);
    let mut rd = related();
    match metrics_from(&t, &mut rd) {
        Err(Error::UnrecognizedMetricType { metric_type }) => assert_eq!(metric_type, 6),
        _ => panic!("expected UnrecognizedMetricType"),
    }
}

#[test]
fn decode_with_empty_type_fails() {
    let t = table(vec![0], vec![0], vec![0]);
    let mut rd = related();
    assert!(matches!(metrics_from(&t, &mut rd), Err(Error::EmptyMetricType)));
}

#[test]
fn two_sum_rows_take_points_of_their_ids() {
    let mut t = table(vec![0, 0], vec![0, 0], vec![2, 2]);
    t.columns[2] = col("id", ColumnValues::UInt16(vec![Some(0), Some(1)]));
    let mut rd = related();
    rd.stores.number.insert(0, vec![10, 20, 30]);
    let m = metrics_from(&t, &mut rd).ok().unwrap();
    let metrics = &m.resource_metrics[0].scope_metrics[0].metrics;
    match &metrics[0].data {
        MetricData::Sum { data_points, aggregation_temporality, is_monotonic } => {
            assert_eq!(data_points, &vec![10, 20, 30]);
            assert_eq!(*aggregation_temporality, 1);
            assert!(*is_monotonic);
        }
        _ => panic!("expected Sum"),
    }
    match &metrics[1].data {
        MetricData::Sum { data_points, .. } => assert!(data_points.is_empty()),
        _ => panic!("expected Sum"),
    }
    assert!(rd.stores.number.take(0).is_empty());
}

#[test]
fn resource_attributes_follow_absolute_id() {
    let t = table(vec![5], vec![0], vec![1]);
    let mut rd = related();
    rd.res_attr_map_store.insert(5, vec!["host", "pid"]);
    let m = metrics_from(&t, &mut rd).ok().unwrap();
    assert_eq!(m.resource_metrics[0].resource.attributes, vec!["host", "pid"]);
}

#[test]
fn decoding_twice_gives_same_shape() {
    let t = table(vec![2, 0, 1], vec![0, 3, 0], vec![3, 4, 1]);
    let mut a = related();
    let mut b = related();
    a.stores.histogram.insert(0, vec![1]);
    b.stores.histogram.insert(0, vec![1]);
    let x = metrics_from(&t, &mut a).ok().unwrap();
    let y = metrics_from(&t, &mut b).ok().unwrap();
    assert_eq!(x.resource_metrics.len(), y.resource_metrics.len());
    for (p, q) in x.resource_metrics.iter().zip(y.resource_metrics.iter()) {
        assert_eq!(p.scope_metrics.len(), q.scope_metrics.len());
        for (s1, s2) in p.scope_metrics.iter().zip(q.scope_metrics.iter()) {
            let n1: Vec<&String> = s1.metrics.iter().map(|m| &m.name).collect();
            let n2: Vec<&String> = s2.metrics.iter().map(|m| &m.name).collect();
            assert_eq!(n1, n2);
        }
    }
}

#[test]
fn each_resource_takes_its_opening_row() {
    let mut t = table(vec![0, 0, 4], vec![0, 0, 0], vec![1, 1, 1]);
    t.columns[0] = col(
        "resource",
        ColumnValues::Struct(vec![
            col("id", ColumnValues::UInt16(vec![Some(0), None, Some(4)])),
            col("dropped_attributes_count", ColumnValues::UInt32(vec![Some(1), Some(2), Some(3)])),
            col(
                "schema_url",
                ColumnValues::Utf8(vec![Some("a".to_string()), Some("b".to_string()), Some("c".to_string())]),
            ),
        ]),
    );
    let mut rd = related();
    rd.res_attr_map_store.insert(4, vec!["k"]);
    let m = metrics_from(&t, &mut rd).ok().unwrap();
    assert_eq!(m.resource_metrics.len(), 2);
    assert_eq!(m.resource_metrics[0].schema_url, "a");
    assert_eq!(m.resource_metrics[0].resource.dropped_attributes_count, 1);
    assert!(m.resource_metrics[0].resource.attributes.is_empty());
    assert_eq!(m.resource_metrics[1].schema_url, "c");
    assert_eq!(m.resource_metrics[1].resource.dropped_attributes_count, 3);
    assert_eq!(m.resource_metrics[1].resource.attributes, vec!["k"]);
}
