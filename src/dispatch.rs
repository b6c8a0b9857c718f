use crate::error::Error;
use crate::metric::MetricType;
use crate::store::{points_for, DataPointStore};
use vstd::prelude::*;

verus! {

/// The type-tagged payload of one metric, over the four data-point shapes.
pub enum MetricData<N, H, E, S> {
    Gauge { data_points: Vec<N> },
    Sum { data_points: Vec<N>, aggregation_temporality: i32, is_monotonic: bool },
    Histogram { data_points: Vec<H>, aggregation_temporality: i32 },
    ExponentialHistogram { data_points: Vec<E>, aggregation_temporality: i32 },
    Summary { data_points: Vec<S> },
}

/// The per-type data-point stores; gauges and sums share the number store.
pub struct DataPointStores<N, H, E, S> {
    pub number: DataPointStore<N>,
    pub histogram: DataPointStore<H>,
    pub e_histogram: DataPointStore<E>,
    pub summary: DataPointStore<S>,
}

impl<N, H, E, S> DataPointStores<N, H, E, S> {
    pub fn new() -> (r: Self)
        ensures
            r.number.entries@ == Map::<u16, Vec<N>>::empty(),
            r.histogram.entries@ == Map::<u16, Vec<H>>::empty(),
            r.e_histogram.entries@ == Map::<u16, Vec<E>>::empty(),
            r.summary.entries@ == Map::<u16, Vec<S>>::empty(),
    {
        DataPointStores {
            number: DataPointStore::new(),
            histogram: DataPointStore::new(),
            e_histogram: DataPointStore::new(),
            summary: DataPointStore::new(),
        }
    }
}

/// Builds the payload of a metric of type `code`, moving its data points
/// out of the store that matches the type.
pub fn metric_data_from<N, H, E, S>(
    code: u8,
    aggregation_temporality: i32,
    is_monotonic: bool,
    metric_id: u16,
    stores: &mut DataPointStores<N, H, E, S>,
) -> (r: Result<MetricData<N, H, E, S>, Error>)
    ensures
        code == 0 <==> r matches Err(Error::EmptyMetricType),
        code > 5 <==> (r matches Err(Error::UnrecognizedMetricType { metric_type }) && metric_type
            == code as i32),
        r is Err ==> *final(stores) == *old(stores),
        (code == 1 || code == 2) ==> {
            &&& final(stores).number.entries@ == old(stores).number.entries@.remove(metric_id)
            &&& final(stores).histogram == old(stores).histogram
            &&& final(stores).e_histogram == old(stores).e_histogram
            &&& final(stores).summary == old(stores).summary
        },
        code == 1 ==> (r matches Ok(MetricData::Gauge { data_points }) && data_points@
            == points_for(old(stores).number.entries@, metric_id)),
        code == 2 ==> (r matches Ok(MetricData::Sum { data_points, aggregation_temporality: t, is_monotonic: m })
            && data_points@ == points_for(old(stores).number.entries@, metric_id)
            && t == aggregation_temporality && m == is_monotonic),
        code == 3 ==> {
            &&& r matches Ok(MetricData::Histogram { data_points, aggregation_temporality: t })
                && data_points@ == points_for(old(stores).histogram.entries@, metric_id)
                && t == aggregation_temporality
            &&& final(stores).histogram.entries@ == old(stores).histogram.entries@.remove(metric_id)
            &&& final(stores).number == old(stores).number
            &&& final(stores).e_histogram == old(stores).e_histogram
            &&& final(stores).summary == old(stores).summary
        },
        code == 4 ==> {
            &&& r matches Ok(MetricData::ExponentialHistogram { data_points, aggregation_temporality: t })
                && data_points@ == points_for(old(stores).e_histogram.entries@, metric_id)
                && t == aggregation_temporality
            &&& final(stores).e_histogram.entries@ == old(stores).e_histogram.entries@.remove(metric_id)
            &&& final(stores).number == old(stores).number
            &&& final(stores).histogram == old(stores).histogram
            &&& final(stores).summary == old(stores).summary
        },
        code == 5 ==> {
            &&& r matches Ok(MetricData::Summary { data_points })
                && data_points@ == points_for(old(stores).summary.entries@, metric_id)
            &&& final(stores).summary.entries@ == old(stores).summary.entries@.remove(metric_id)
            &&& final(stores).number == old(stores).number
            &&& final(stores).histogram == old(stores).histogram
            &&& final(stores).e_histogram == old(stores).e_histogram
        },
{
    let metric_type = match MetricType::try_from_code(code) {
        Some(t) => t,
        None => {
            return Err(Error::UnrecognizedMetricType { metric_type: code as i32 });
        },
    };
    match metric_type {
        MetricType::Gauge => {
            let data_points = stores.number.take(metric_id);
            Ok(MetricData::Gauge { data_points })
        },
        MetricType::Sum => {
            let data_points = stores.number.take(metric_id);
            Ok(MetricData::Sum { data_points, aggregation_temporality, is_monotonic })
        },
        MetricType::Histogram => {
            let data_points = stores.histogram.take(metric_id);
            Ok(MetricData::Histogram { data_points, aggregation_temporality })
        },
        MetricType::ExponentialHistogram => {
            let data_points = stores.e_histogram.take(metric_id);
            Ok(MetricData::ExponentialHistogram { data_points, aggregation_temporality })
        },
        MetricType::Summary => {
            let data_points = stores.summary.take(metric_id);
            Ok(MetricData::Summary { data_points })
        },
        MetricType::Empty => Err(Error::EmptyMetricType),
    }
}

} // verus!
