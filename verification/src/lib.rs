//! A verified utility-meter telemetry pipeline: a synthetic event source, a
//! record validator, and a per-consumer aggregate store with a query report.

pub mod consumer;
pub mod data_stream;
pub mod meter_reading;
pub mod query;
