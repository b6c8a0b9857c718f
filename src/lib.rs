//! Decoding of delta-encoded columnar metrics tables into the
//! resource / scope / metric hierarchy: column binding, identifier
//! accumulation with group-boundary detection, and metric-type dispatch.
pub mod decode;
pub mod dispatch;
pub mod error;
pub mod metric;
pub mod scan;
pub mod store;
pub mod table;
