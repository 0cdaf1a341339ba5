//! The meter root and the instrument handles.
//!
//! The meter owns the channel: it keeps the strong sending half alive and
//! hands the receiving half out once. Every instrument handle holds only a
//! weak sending half, so once the meter (and any cloned strong senders) are
//! gone, emissions resolve no sender and become silent no-ops.

use crate::attrs::flat;
use crate::attrs::AttributeSet;
use crate::attrs::MetricAttribute;
use crate::channel::MetricsExporterConsumer;
use crate::channel::MetricsExporterProducer;
use crate::event::MetricEventEntry;
use crate::event::MetricEventEntryChange;
use vstd::prelude::*;

verus! {

/// How many event envelopes the delivery channel buffers by default.
pub const DEFAULT_CHANNEL_CAPACITY: usize = 8192;

/// The default capacity sits inside the channel's permitted buffer range on
/// any machine word size.
proof fn lemma_default_capacity_in_bounds()
    ensures
        1 <= DEFAULT_CHANNEL_CAPACITY <= usize::MAX >> 3,
{
    vstd::layout::unsigned_int_max_values();
    vstd::arithmetic::power2::lemma2_to64();
    vstd::bits::lemma_usize_shr_is_div(usize::MAX, 3);
    assert(usize::BITS == 32 || usize::BITS == 64);
}

/// The root of the metrics bridge: constructs the bounded delivery channel,
/// retains its strong sending half for as long as it lives, and manufactures
/// attribute sets and instrument handles.
pub struct TypeScriptMetricsExporter {
    sender: MetricsExporterProducer,
    receiver: Option<MetricsExporterConsumer>,
}

impl TypeScriptMetricsExporter {
    /// Whether the receiving half is still here, waiting for its one
    /// consumer to take it.
    pub closed spec fn has_consumer(&self) -> bool {
        self.receiver is Some
    }

    /// The strong sending half the meter retains for its whole life.
    pub closed spec fn producer(&self) -> MetricsExporterProducer {
        self.sender
    }

    /// The receiving half still stored in the meter.
    pub closed spec fn stored_consumer(&self) -> MetricsExporterConsumer {
        self.receiver->Some_0
    }

    /// A fresh meter over a channel with the default capacity.
    pub fn new() -> (r: Self)
        ensures
            r.has_consumer(),
    {
        proof {
            lemma_default_capacity_in_bounds();
        }
        Self::with_capacity(DEFAULT_CHANNEL_CAPACITY)
    }

    /// A fresh meter over a channel buffering up to `capacity` envelopes.
    /// The capacity is fixed here for the meter's whole life.
    pub fn with_capacity(capacity: usize) -> (r: Self)
        requires
            1 <= capacity <= usize::MAX >> 3,
        ensures
            r.has_consumer(),
    {
        let (sender, receiver) = tokio::sync::mpsc::channel(capacity);
        TypeScriptMetricsExporter { sender, receiver: Some(receiver) }
    }

    /// Hands the receiving half to the one external collector. The contract
    /// makes the take single: after it, `has_consumer` is gone for good, and
    /// no verified caller can ask twice.
    pub fn take_consumer(&mut self) -> (r: MetricsExporterConsumer)
        requires
            old(self).has_consumer(),
        ensures
            !final(self).has_consumer(),
            r == old(self).stored_consumer(),
            final(self).producer() == old(self).producer(),
    {
        self.receiver.take().unwrap()
    }

    /// A new attribute set: the given deltas, appended to `base` when one is
    /// handed in. Purely additive, never blocking, never failing; the empty
    /// result stands for "no additional dimensions".
    pub fn new_attributes(&self, base: Option<&AttributeSet>, entries: Vec<MetricAttribute>) -> (r:
        AttributeSet)
        ensures
            (match base {
                Some(b) => r@ == b@ + entries@,
                None => r@ == entries@,
            }),
    {
        match base {
            Some(b) => b.extend(entries),
            None => AttributeSet::from_entries(entries),
        }
    }

    /// A counter handle recording under `name`. An empty name is a setup
    /// error and is refused here, never on the hot path.
    pub fn counter(&self, name: &str) -> (c: TypeScriptMetricsExporterCounter)
        requires
            name@.len() > 0,
        ensures
            c.name_view() == name@,
    {
        TypeScriptMetricsExporterCounter { name: name.to_owned(), sender: self.sender.downgrade() }
    }

    /// A histogram handle recording under `name`. An empty name is a setup
    /// error and is refused here, never on the hot path.
    pub fn histogram(&self, name: &str) -> (h: TypeScriptMetricsExporterHistogram)
        requires
            name@.len() > 0,
        ensures
            h.name_view() == name@,
    {
        TypeScriptMetricsExporterHistogram {
            name: name.to_owned(),
            sender: self.sender.downgrade(),
        }
    }

    /// A gauge handle recording under `name`. An empty name is a setup error
    /// and is refused here, never on the hot path.
    pub fn gauge(&self, name: &str) -> (g: TypeScriptMetricsExporterGauge)
        requires
            name@.len() > 0,
        ensures
            g.name_view() == name@,
    {
        TypeScriptMetricsExporterGauge { name: name.to_owned(), sender: self.sender.downgrade() }
    }
}

/// One non-blocking delivery attempt: resolve the weak sender and, while the
/// meter still lives, try exactly one enqueue. A full buffer drops the new
/// event; a torn-down meter makes the whole call a no-op. Either way the
/// call returns at once and reports nothing to the emitting site.
fn deliver(sender: &tokio::sync::mpsc::WeakSender<MetricEventEntry>, entry: MetricEventEntry) {
    match sender.upgrade() {
        Some(strong) => {
            let _ = strong.try_send(entry);
        },
        None => {},
    }
}

/// A handle for one counter metric: a monotonically increasing quantity
/// recorded as additive deltas.
pub struct TypeScriptMetricsExporterCounter {
    name: String,
    sender: tokio::sync::mpsc::WeakSender<MetricEventEntry>,
}

impl TypeScriptMetricsExporterCounter {
    /// The metric name this handle records under.
    pub closed spec fn name_view(&self) -> Seq<char> {
        self.name@
    }

    /// The envelope one `add` call delivers: this handle's name, the delta
    /// as an additive payload, and the flattened attributes.
    pub fn entry_for(&self, delta: u64, attributes: &AttributeSet) -> (e: MetricEventEntry)
        ensures
            e.metric_name@ == self.name_view(),
            e.change == MetricEventEntryChange::Delta(delta),
            flat(e.attributes@) == flat(attributes@),
            e.wf(),
    {
        MetricEventEntry::new(&self.name, MetricEventEntryChange::Delta(delta), attributes)
    }

    /// Signals `delta` more of the counted quantity: builds the envelope and
    /// makes one non-blocking enqueue attempt, then returns unconditionally.
    pub fn add(&self, delta: u64, attributes: &AttributeSet) {
        let entry = self.entry_for(delta, attributes);
        deliver(&self.sender, entry);
    }
}

/// A handle for one histogram metric: single observations of a distribution;
/// bucketing belongs to the consumer.
pub struct TypeScriptMetricsExporterHistogram {
    name: String,
    sender: tokio::sync::mpsc::WeakSender<MetricEventEntry>,
}

impl TypeScriptMetricsExporterHistogram {
    /// The metric name this handle records under.
    pub closed spec fn name_view(&self) -> Seq<char> {
        self.name@
    }

    /// The envelope one `record` call delivers: this handle's name, the
    /// observation as an absolute payload, and the flattened attributes.
    pub fn entry_for(&self, value: u64, attributes: &AttributeSet) -> (e: MetricEventEntry)
        ensures
            e.metric_name@ == self.name_view(),
            e.change == MetricEventEntryChange::Value(value),
            flat(e.attributes@) == flat(attributes@),
            e.wf(),
    {
        MetricEventEntry::new(&self.name, MetricEventEntryChange::Value(value), attributes)
    }

    /// Records one observation: builds the envelope and makes one
    /// non-blocking enqueue attempt, then returns unconditionally.
    pub fn record(&self, value: u64, attributes: &AttributeSet) {
        let entry = self.entry_for(value, attributes);
        deliver(&self.sender, entry);
    }
}

/// A handle for one gauge metric: point-in-time absolute readings;
/// last-write-wins is the consumer's business.
pub struct TypeScriptMetricsExporterGauge {
    name: String,
    sender: tokio::sync::mpsc::WeakSender<MetricEventEntry>,
}

impl TypeScriptMetricsExporterGauge {
    /// The metric name this handle records under.
    pub closed spec fn name_view(&self) -> Seq<char> {
        self.name@
    }

    /// The envelope one `record` call delivers: this handle's name, the
    /// reading as an absolute payload, and the flattened attributes.
    pub fn entry_for(&self, value: u64, attributes: &AttributeSet) -> (e: MetricEventEntry)
        ensures
            e.metric_name@ == self.name_view(),
            e.change == MetricEventEntryChange::Value(value),
            flat(e.attributes@) == flat(attributes@),
            e.wf(),
    {
        MetricEventEntry::new(&self.name, MetricEventEntryChange::Value(value), attributes)
    }

    /// Records the current reading: builds the envelope and makes one
    /// non-blocking enqueue attempt, then returns unconditionally.
    pub fn record(&self, value: u64, attributes: &AttributeSet) {
        let entry = self.entry_for(value, attributes);
        deliver(&self.sender, entry);
    }
}

} // verus!
