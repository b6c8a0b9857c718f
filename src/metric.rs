use vstd::prelude::*;

verus! {

/// The type code carried by each metric row.
#[derive(PartialEq, Eq, Structural, Clone, Copy, Debug)]
pub enum MetricType {
    Empty,
    Gauge,
    Sum,
    Histogram,
    ExponentialHistogram,
    Summary,
}

/// The numeric code of each metric type.
pub open spec fn code_of(t: MetricType) -> u8 {
    match t {
        MetricType::Empty => 0,
        MetricType::Gauge => 1,
        MetricType::Sum => 2,
        MetricType::Histogram => 3,
        MetricType::ExponentialHistogram => 4,
        MetricType::Summary => 5,
    }
}

impl MetricType {
    /// Parses a type code; codes above 5 are not metric types.
    pub fn try_from_code(code: u8) -> (r: Option<MetricType>)
        ensures
            code <= 5 <==> r is Some,
            r matches Some(t) ==> code_of(t) == code,
    {
        match code {
            0 => Some(MetricType::Empty),
            1 => Some(MetricType::Gauge),
            2 => Some(MetricType::Sum),
            3 => Some(MetricType::Histogram),
            4 => Some(MetricType::ExponentialHistogram),
            5 => Some(MetricType::Summary),
            _ => None,
        }
    }
}

/// Appends a default element and hands out a mutable handle to it.
pub trait AppendAndGet<T> {
    fn append_and_get(&mut self) -> (r: &mut T);
}

impl<T: Default> AppendAndGet<T> for Vec<T> {
    fn append_and_get(&mut self) -> (r: &mut T)
        ensures
            final(self)@.len() == old(self)@.len() + 1,
            final(self)@.take(old(self)@.len() as int) == old(self)@,
            final(self)@.last() == *final(r),
            call_ensures(T::default, (), *r),
    {
        self.push(T::default());
        let n = self.len();
        &mut self[n - 1]
    }
}

} // verus!
