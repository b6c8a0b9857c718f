use otel_arrow_rust::dispatch::{metric_data_from, DataPointStores, MetricData};
use otel_arrow_rust::error::{DataType, Error};
use otel_arrow_rust::table::{
    column_by_name, get_struct_array, get_u16_array, Column, ColumnValues, MetricsArrays, Table,
};

fn s(x: &str) -> String {
    x.to_string()
}

fn metric_table() -> Table {
    let cols = vec![
        Column { name: s("id"), values: ColumnValues::UInt16(vec![Some(0), None]) },
        Column { name: s("metric_type"), values: ColumnValues::UInt8(vec![Some(2), Some(2)]) },
        Column { name: s("name"), values: ColumnValues::Utf8(vec![Some(s("a")), None]) },
        Column { name: s("description"), values: ColumnValues::Utf8(vec![None, None]) },
        Column { name: s("schema_url"), values: ColumnValues::Utf8(vec![None, None]) },
        Column { name: s("unit"), values: ColumnValues::Utf8(vec![None, None]) },
        Column { name: s("aggregation_temporality"), values: ColumnValues::Int32(vec![Some(1), Some(1)]) },
        Column { name: s("is_monotonic"), values: ColumnValues::Boolean(vec![Some(true), Some(true)]) },
    ];
    Table { num_rows: 2, columns: cols }
}

fn bind(t: &Table) -> Result<MetricsArrays<'_>, Error> {
    MetricsArrays::bind(t)
}

#[test]
fn missing_resource_column_is_not_found() {
    let t = metric_table();
    match get_struct_array(&t.columns, &s("resource")) {
        Err(Error::ColumnNotFound { name }) => assert_eq!(name, "resource"),
        _ => panic!("expected ColumnNotFound"),
    }
}

#[test]
fn wrong_type_is_a_mismatch() {
    let t = metric_table();
    match get_u16_array(&t.columns, &s("name")) {
        Err(Error::ColumnDataTypeMismatch { name, expect, actual }) => {
            assert_eq!(name, "name");
            assert_eq!(expect, DataType::UInt16);
            assert_eq!(actual, DataType::Utf8);
        }
        _ => panic!("expected ColumnDataTypeMismatch"),
    }
}

#[test]
fn first_column_of_a_name_wins() {
    let cols = vec![
        Column { name: s("x"), values: ColumnValues::Other },
        Column { name: s("id"), values: ColumnValues::UInt16(vec![Some(1)]) },
        Column { name: s("id"), values: ColumnValues::UInt16(vec![Some(2)]) },
    ];
    assert_eq!(column_by_name(&cols, &s("id")), Some(1));
    assert_eq!(get_u16_array(&cols, &s("id")).ok().unwrap(), &vec![Some(1)]);
    assert_eq!(column_by_name(&cols, &s("y")), None);
}

#[test]
fn metric_columns_bind() {
    let t = metric_table();
    let a = bind(&t).ok().unwrap();
    assert_eq!(a.metric_type, &vec![Some(2), Some(2)]);
    assert_eq!(a.name[0], Some(s("a")));
}

#[test]
fn metric_binding_reports_missing_unit() {
    let mut t = metric_table();
    t.columns.remove(5);
    match bind(&t) {
        Err(Error::ColumnNotFound { name }) => assert_eq!(name, "unit"),
        _ => panic!("expected ColumnNotFound"),
    }
}

type Stores = DataPointStores<u32, u8, u16, i64>;

#[test]
fn type_code_six_is_unrecognized() {
    let mut stores: Stores = DataPointStores::new();
    stores.number.insert(0, vec![1]);
    match metric_data_from(6, 0, false, 0, &mut stores) {
        Err(Error::UnrecognizedMetricType { metric_type }) => assert_eq!(metric_type, 6),
        _ => panic!("expected UnrecognizedMetricType"),
    }
    assert_eq!(stores.number.take(0), vec![1]);
}

#[test]
fn type_code_zero_is_empty() {
    let mut stores: Stores = DataPointStores::new();
    assert!(matches!(metric_data_from(0, 0, false, 0, &mut stores), Err(Error::EmptyMetricType)));
}

#[test]
fn consecutive_sums_take_points_once() {
    let mut stores: Stores = DataPointStores::new();
    stores.number.insert(3, vec![10, 20, 30]);
    match metric_data_from(2, 1, true, 3, &mut stores) {
        Ok(MetricData::Sum { data_points, aggregation_temporality, is_monotonic }) => {
            assert_eq!(data_points, vec![10, 20, 30]);
            assert_eq!(aggregation_temporality, 1);
            assert!(is_monotonic);
        }
        _ => panic!("expected Sum"),
    }
    match metric_data_from(2, 1, true, 4, &mut stores) {
        Ok(MetricData::Sum { data_points, .. }) => assert!(data_points.is_empty()),
        _ => panic!("expected Sum"),
    }
}

#[test]
fn histogram_and_summary_use_their_stores() {
    let mut stores: Stores = DataPointStores::new();
    stores.histogram.insert(1, vec![7]);
    stores.e_histogram.insert(1, vec![8]);
    stores.summary.insert(1, vec![9]);
    assert!(matches!(metric_data_from(3, 2, false, 1, &mut stores),
        Ok(MetricData::Histogram { ref data_points, aggregation_temporality: 2 }) if *data_points == vec![7]));
    assert!(matches!(metric_data_from(4, 2, false, 1, &mut stores),
        Ok(MetricData::ExponentialHistogram { ref data_points, .. }) if *data_points == vec![8]));
    assert!(matches!(metric_data_from(5, 0, false, 1, &mut stores),
        Ok(MetricData::Summary { ref data_points }) if *data_points == vec![9]));
    assert!(matches!(metric_data_from(1, 0, false, 1, &mut stores),
        Ok(MetricData::Gauge { ref data_points }) if data_points.is_empty()));
}
