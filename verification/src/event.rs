//! The event envelope: the immutable record produced per emission.

use crate::attrs::flat;
use crate::attrs::unique_keys;
use crate::attrs::AttributeSet;
use crate::attrs::MetricAttribute;
use vstd::prelude::*;

verus! {

/// The payload of one metric event: an additive delta for counters, or an
/// absolute reading for histograms and gauges.
#[derive(Debug, Clone, Copy, PartialEq, Eq, Structural)]
pub enum MetricEventEntryChange {
    Delta(u64),
    Value(u64),
}

/// A single metric change event.
///
/// Immutable once constructed; ownership moves fully into the channel on a
/// successful enqueue.
#[derive(Debug)]
pub struct MetricEventEntry {
    /// When this event was generated (at emission, not at delivery).
    pub timestamp: std::time::SystemTime,
    /// The stable identifier of the instrument that emitted the event.
    pub metric_name: String,
    /// The recorded change.
    pub change: MetricEventEntryChange,
    /// The flattened dimensional tags: one pair per key, latest-applied wins.
    pub attributes: Vec<MetricAttribute>,
}

impl MetricEventEntry {
    /// The attributes really are a flattened map: no key twice.
    pub open spec fn wf(&self) -> bool {
        unique_keys(self.attributes@)
    }

    /// Builds the envelope for one emission: the timestamp is captured here,
    /// at the moment of the call, and the attribute set is flattened into a
    /// single key/value mapping.
    pub fn new(
        metric_name: &String,
        change: MetricEventEntryChange,
        attributes: &AttributeSet,
    ) -> (e: MetricEventEntry)
        ensures
            e.metric_name == *metric_name,
            e.change == change,
            flat(e.attributes@) == flat(attributes@),
            e.wf(),
    {
        MetricEventEntry {
            timestamp: std::time::SystemTime::now(),
            metric_name: metric_name.clone(),
            change,
            attributes: attributes.flattened(),
        }
    }
}

} // verus!
