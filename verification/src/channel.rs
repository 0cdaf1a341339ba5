//! The delivery channel: tokio's bounded multi-producer single-consumer
//! queue, declared here so verified code can hold its halves and attempt
//! non-blocking sends.
//!
//! Every outcome of a channel call depends on state shared with the other
//! half (and, in a running system, with other threads), so the declarations
//! state only what holds whatever comes back; the spec of the enqueue outcome
//! is deliberately left open.

use crate::event::MetricEventEntry;
use vstd::prelude::*;

verus! {

/// The strong sending half of a bounded tokio channel.
#[verifier::external_type_specification]
#[verifier::external_body]
#[verifier::reject_recursive_types(T)]
pub struct ExSender<T>(tokio::sync::mpsc::Sender<T>);

/// The weak sending half: holding one does not keep the channel open.
#[verifier::external_type_specification]
#[verifier::external_body]
#[verifier::reject_recursive_types(T)]
pub struct ExWeakSender<T>(tokio::sync::mpsc::WeakSender<T>);

/// The receiving half of a bounded tokio channel.
#[verifier::external_type_specification]
#[verifier::external_body]
#[verifier::reject_recursive_types(T)]
pub struct ExReceiver<T>(tokio::sync::mpsc::Receiver<T>);

/// A failed non-blocking send, carrying the unsent value back.
#[verifier::external_type_specification]
#[verifier::external_body]
#[verifier::reject_recursive_types(T)]
pub struct ExTrySendError<T>(tokio::sync::mpsc::error::TrySendError<T>);

/// The sending half of the delivery channel.
pub type MetricsExporterProducer = tokio::sync::mpsc::Sender<MetricEventEntry>;

/// The receiving half of the delivery channel: the external collector's end.
pub type MetricsExporterConsumer = tokio::sync::mpsc::Receiver<MetricEventEntry>;

/// Relies on `tokio::sync::mpsc::channel`: a fresh FIFO channel whose buffer
/// holds exactly `buffer` queued values. It panics on a zero buffer and on
/// one beyond the permit cap of its semaphore, so those are required away.
pub assume_specification<T>[ tokio::sync::mpsc::channel::<T> ](buffer: usize) -> (r: (
    tokio::sync::mpsc::Sender<T>,
    tokio::sync::mpsc::Receiver<T>,
))
    requires
        1 <= buffer <= usize::MAX >> 3,
;

/// Relies on `tokio::sync::mpsc::Sender::downgrade`: a weak sending half for
/// the same channel, not counted towards keeping it open.
pub assume_specification<T>[ tokio::sync::mpsc::Sender::<T>::downgrade ](
    s: &tokio::sync::mpsc::Sender<T>,
) -> (w: tokio::sync::mpsc::WeakSender<T>);

/// Relies on `tokio::sync::mpsc::WeakSender::upgrade`: `Some` strong half
/// while other strong senders are still alive, `None` once they are gone.
/// Which of the two comes back depends on shared state, so nothing more is
/// stated; callers must handle both.
pub assume_specification<T>[ tokio::sync::mpsc::WeakSender::<T>::upgrade ](
    w: &tokio::sync::mpsc::WeakSender<T>,
) -> (s: Option<tokio::sync::mpsc::Sender<T>>);

/// Relies on `tokio::sync::mpsc::Sender::try_send`: exactly one enqueue
/// attempt that never waits — `Ok` if a buffer slot was free, `Err` (full or
/// closed, carrying the value back) otherwise. The outcome depends on the
/// channel's shared state, so nothing is stated of which comes back.
pub assume_specification<T>[ tokio::sync::mpsc::Sender::<T>::try_send ](
    s: &tokio::sync::mpsc::Sender<T>,
    message: T,
) -> (r: Result<(), tokio::sync::mpsc::error::TrySendError<T>>);

} // verus!
