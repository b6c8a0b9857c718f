use otel_arrow_rust::metric::{AppendAndGet, MetricType};
use otel_arrow_rust::scan::{boundaries, Accumulator};
use otel_arrow_rust::store::DataPointStore;

#[test]
fn metric_type_codes_parse() {
    assert_eq!(MetricType::try_from_code(0), Some(MetricType::Empty));
    assert_eq!(MetricType::try_from_code(2), Some(MetricType::Sum));
    assert_eq!(MetricType::try_from_code(5), Some(MetricType::Summary));
}

#[test]
fn metric_type_six_is_unrecognized() {
    assert_eq!(MetricType::try_from_code(6), None);
    assert_eq!(MetricType::try_from_code(255), None);
}

#[test]
fn zero_deltas_give_one_resource_and_scope() {
    let b = boundaries(&vec![0, 0, 0, 0], &vec![0, 0, 0, 0]);
    assert_eq!(b.len(), 4);
    assert!(b[0].new_resource && b[0].new_scope);
    for k in 1..4 {
        assert!(!b[k].new_resource && !b[k].new_scope);
    }
}

#[test]
fn first_row_opens_resource_at_its_delta() {
    let mut acc = Accumulator::new();
    let r = acc.advance(5, 0);
    assert!(r.new_resource && r.new_scope);
    assert_eq!(acc.res_id, 5);
    let r = acc.advance(0, 0);
    assert!(!r.new_resource && !r.new_scope);
}

#[test]
fn resource_change_reopens_scope() {
    let b = boundaries(&vec![1, 0, 2, 0], &vec![0, 1, 0, 0]);
    let res: Vec<bool> = b.iter().map(|x| x.new_resource).collect();
    let scope: Vec<bool> = b.iter().map(|x| x.new_scope).collect();
    assert_eq!(res, vec![true, false, true, false]);
    assert_eq!(scope, vec![true, true, true, false]);
}

#[test]
fn running_total_wraps_in_sixteen_bits() {
    let mut acc = Accumulator::new();
    acc.advance(65535, 0);
    let r = acc.advance(1, 0);
    assert_eq!(acc.res_id, 0);
    assert!(r.new_resource);
}

#[test]
fn take_empties_the_entry() {
    let mut store: DataPointStore<u32> = DataPointStore::new();
    store.insert(7, vec![1, 2, 3]);
    assert_eq!(store.take(7), vec![1, 2, 3]);
    assert!(store.take(7).is_empty());
    assert!(store.take(8).is_empty());
}

#[test]
fn append_and_get_returns_new_last() {
    let mut v: Vec<u32> = vec![4];
    *v.append_and_get() = 9;
    assert_eq!(v, vec![4, 9]);
}
