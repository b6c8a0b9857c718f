use vstd::prelude::*;

verus! {

/// Physical type of a column, as far as the decoder tells types apart.
#[derive(PartialEq, Eq, Structural, Clone, Copy, Debug)]
pub enum DataType {
    Boolean,
    UInt8,
    UInt16,
    UInt32,
    Int32,
    Utf8,
    Struct,
    Other,
}

/// The closed set of failures of a decode.
#[derive(Debug)]
pub enum Error {
    ColumnNotFound { name: String },
    ColumnDataTypeMismatch { name: String, expect: DataType, actual: DataType },
    UnrecognizedMetricType { metric_type: i32 },
    EmptyMetricType,
    UnrecognizedAttributeValueType,
    UnsupportedAttributeValue { value_type: String },
}

pub type Result<T> = core::result::Result<T, Error>;

} // verus!
