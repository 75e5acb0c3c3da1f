//! Reading a DSMR5 smart meter: cutting telegrams out of a serial byte
//! stream, folding their readings into a set of metric instruments, and
//! deciding when to reconnect and when the metrics are fresh enough to serve.

pub mod backoff;
pub mod buffer;
pub mod decoder;
pub mod frame;
pub mod instruments;
pub mod metrics;
pub mod snapshot;
pub mod stream;
pub mod supervisor;
pub mod telegram;

pub use decoder::{DecodeError, Dsmr5Codec};
pub use metrics::Metrics;
pub use snapshot::Snapshot;
