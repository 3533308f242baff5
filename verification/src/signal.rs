//! The sensor signal and the notification task.
//!
//! The sensor producer publishes readings into a single-slot, latest-value
//! cell; each connection's notification task drains it and forwards every
//! drained value as a notification on the scalar sensor characteristic. The
//! slot is overwritten on publish, never queued: a consumer that drains
//! slowly sees only the newest value, and an intermediate value is never
//! delivered after a newer one has been published. A failed notify ends the
//! task — a stale reading delivered late is worthless for a live stream —
//! while the connection's event loop runs on independently.

use vstd::prelude::*;

use crate::events::Notification;
use crate::gatt::CharacteristicId;

verus! {

/// A single-slot, latest-value-wins cell for sensor readings.
pub struct SensorSignal {
    slot: Option<u8>,
}

impl View for SensorSignal {
    type V = Option<u8>;

    closed spec fn view(&self) -> Option<u8> {
        self.slot
    }
}

impl SensorSignal {
    /// An empty signal: nothing published yet.
    pub fn new() -> (s: SensorSignal)
        ensures
            s@ is None,
    {
        SensorSignal { slot: None }
    }

    /// Publish a reading. The slot is overwritten whether or not the
    /// previous value was ever drained: the producer never waits.
    pub fn publish(&mut self, value: u8)
        ensures
            final(self)@ == Some(value),
    {
        self.slot = Some(value);
    }

    /// Drain the slot: returns the latest published value, leaving the slot
    /// empty, or `None` when nothing was published since the last drain.
    pub fn try_take(&mut self) -> (r: Option<u8>)
        ensures
            r == old(self)@,
            final(self)@ is None,
    {
        let r = self.slot;
        self.slot = None;
        r
    }

    /// Whether a value is waiting to be drained.
    pub fn signaled(&self) -> (r: bool)
        ensures
            r <==> self@ is Some,
    {
        match self.slot {
            Some(_) => true,
            None => false,
        }
    }
}

/// The slot's content after a burst of publishes with no drain in between.
pub open spec fn spec_after_publishes(m: Option<u8>, values: Seq<u8>) -> Option<u8>
    decreases values.len(),
{
    if values.len() == 0 {
        m
    } else {
        spec_after_publishes(Some(values[0]), values.drop_first())
    }
}

/// Latest value wins: after any non-empty burst of publishes, the slot holds
/// exactly the last published value, whatever it held before — so one slow
/// drain observes only the newest reading, and an intermediate reading can
/// never be delivered once a newer one has been published.
pub proof fn lemma_latest_value_wins(m: Option<u8>, values: Seq<u8>)
    requires
        values.len() > 0,
    ensures
        spec_after_publishes(m, values) == Some(values.last()),
    decreases values.len(),
{
    if values.len() == 1 {
        assert(values.drop_first() =~= Seq::<u8>::empty());
    } else {
        lemma_latest_value_wins(Some(values[0]), values.drop_first());
        assert(values.drop_first().last() == values.last());
    }
}

/// Whether the notification task runs another round.
#[derive(Clone, Copy, Debug, PartialEq, Eq, Structural)]
pub enum TaskDirective {
    /// The notify went out; wait for the next reading.
    Continue,
    /// The notify failed: the link is gone, the task ends. No retry — a
    /// stale reading sent later is meaningless.
    Stop,
}

/// The notification the task sends for a drained reading: the value itself,
/// as the one-byte payload of the scalar sensor characteristic.
pub fn sensor_notification(value: u8) -> (n: Notification)
    ensures
        n.characteristic == CharacteristicId::Temperature,
        n.payload@ == seq![value],
{
    let mut payload: Vec<u8> = Vec::new();
    payload.push(value);
    proof {
        assert(payload@ =~= seq![value]);
    }
    Notification { characteristic: CharacteristicId::Temperature, payload }
}

/// What the task does after its notify attempt: it continues exactly when
/// the send succeeded; one failure ends the task.
pub fn notify_directive(send_ok: bool) -> (d: TaskDirective)
    ensures
        d is Continue <==> send_ok,
{
    if send_ok {
        TaskDirective::Continue
    } else {
        TaskDirective::Stop
    }
}

} // verus!
