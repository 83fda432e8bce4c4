//! Thread-boundary transport, wrapped for the scheduler.
//!
//! Frames travel through a single-slot rendezvous channel (latest frame
//! wins, drop on overflow), control events through an unbounded queue, and
//! wall-clock ticks through another single-slot channel. What a channel hands
//! back depends on peer threads, so the wrappers promise nothing about it:
//! the scheduler's verified logic states what it does with every outcome.

use vstd::prelude::*;

use std::sync::mpsc::Receiver;
use std::sync::mpsc::SyncSender;
use std::sync::mpsc::TryRecvError;
use std::sync::mpsc::TrySendError;

use crate::events::GBEvent;

verus! {

#[verifier::external_type_specification]
#[verifier::external_body]
#[verifier::reject_recursive_types(T)]
pub struct ExReceiver<T>(Receiver<T>);

#[verifier::external_type_specification]
#[verifier::external_body]
#[verifier::reject_recursive_types(T)]
pub struct ExSyncSender<T>(SyncSender<T>);

/// Outcome of a non-blocking frame publish.
pub enum PublishOutcome {
    /// The consumer's slot took the frame.
    Delivered,
    /// The previous frame is still unconsumed; this one is dropped.
    SlotFull,
    /// The consumer endpoint is gone.
    Disconnected,
}

/// Outcome of a non-blocking poll of the event queue.
pub enum PolledEvent {
    /// The queue yielded its oldest pending event.
    Received(GBEvent),
    /// No event is pending.
    Empty,
    /// Every producer endpoint is gone.
    Disconnected,
}

/// Relies on `std::sync::mpsc::SyncSender::try_send`: it never blocks, and
/// fails with `Full` when the bounded channel has no free slot and with
/// `Disconnected` when the receiver is gone.
#[verifier::external_body]
pub(crate) fn try_send_frame(sender: &SyncSender<Vec<u8>>, frame: Vec<u8>) -> (r: PublishOutcome) {
    match sender.try_send(frame) {
        Ok(()) => PublishOutcome::Delivered,
        Err(TrySendError::Full(_)) => PublishOutcome::SlotFull,
        Err(TrySendError::Disconnected(_)) => PublishOutcome::Disconnected,
    }
}

/// Relies on `std::sync::mpsc::Receiver::try_recv`: it never blocks, and
/// tells an empty queue apart from one whose senders are all gone.
#[verifier::external_body]
pub(crate) fn try_recv_event(receiver: &Receiver<GBEvent>) -> (r: PolledEvent) {
    match receiver.try_recv() {
        Ok(event) => PolledEvent::Received(event),
        Err(TryRecvError::Empty) => PolledEvent::Empty,
        Err(TryRecvError::Disconnected) => PolledEvent::Disconnected,
    }
}

/// Relies on `std::sync::mpsc::Receiver::recv`: it blocks until the ticker
/// signals the next wall-clock interval, or returns at once, with false,
/// when the ticker is gone.
#[verifier::external_body]
pub(crate) fn wait_tick(receiver: &Receiver<()>) -> (r: bool) {
    receiver.recv().is_ok()
}

} // verus!
