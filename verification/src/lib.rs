//! A non-blocking bridge that carries metric events (counter increments,
//! histogram observations, gauge readings) from latency-sensitive producer
//! call sites to an asynchronous consumer over a bounded channel.
//!
//! The meter root owns the channel; instrument handles hold only a weak
//! reference to its sending half, so dropping the meter turns every later
//! emission into a silent no-op instead of an error.

pub mod attrs;
pub mod channel;
pub mod clock;
pub mod event;
pub mod exporter;

pub use attrs::AttributeSet;
pub use attrs::AttributeValue;
pub use attrs::MetricAttribute;
pub use channel::MetricsExporterConsumer;
pub use channel::MetricsExporterProducer;
pub use event::MetricEventEntry;
pub use event::MetricEventEntryChange;
pub use exporter::TypeScriptMetricsExporter;
pub use exporter::TypeScriptMetricsExporterCounter;
pub use exporter::TypeScriptMetricsExporterGauge;
pub use exporter::TypeScriptMetricsExporterHistogram;
