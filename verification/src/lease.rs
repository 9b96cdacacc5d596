//! The inbound message lease.
//!
//! A delivered cloud-to-device message must be marked processed
//! (acknowledged) against the consumer it was read from exactly when its
//! lease ends, on every exit path.  The lease below owns one message,
//! gives read access to it for its whole lifetime, and can be released
//! exactly once — releasing it consumes it, so a second acknowledge for
//! the same lease cannot even be written.  Whoever owns the lease ties the
//! release to scope exit (a destructor around this type), serializes
//! access to the shared consumer with a lock, and performs one real
//! acknowledge call per recorded one, in order; an acknowledge failure is
//! only logged, never surfaced, and the message may then be redelivered.

use vstd::prelude::*;

verus! {

/// One message read from the persistent cloud-to-device channel.
#[derive(Debug)]
pub struct CloudToDeviceMessage {
    /// The store's identifier of the message, which an acknowledge call
    /// names.
    pub id: u64,
    /// The delivered payload.
    pub content: Vec<u8>,
}

/// The acknowledge side of one message consumer, as the lease sees it:
/// the record of the acknowledge calls issued against it, in order.  The
/// consumer itself (a shared handle onto the persistent store) lives
/// outside the library and performs one real acknowledge per recorded
/// call.
#[derive(Debug)]
pub struct ConsumerAcks {
    acked: Vec<u64>,
}

impl ConsumerAcks {
    /// The ids of the messages acknowledged so far, in call order.
    pub closed spec fn acked_ids(&self) -> Seq<u64> {
        self.acked@
    }

    pub fn new() -> (r: Self)
        ensures
            r.acked_ids() == Seq::<u64>::empty(),
    {
        ConsumerAcks { acked: Vec::new() }
    }

    /// How many acknowledge calls have been issued.
    pub fn acked_count(&self) -> (r: usize)
        ensures
            r == self.acked_ids().len(),
    {
        self.acked.len()
    }

    /// The id of one issued acknowledge call.
    pub fn acked_id_at(&self, i: usize) -> (r: u64)
        requires
            i < self.acked_ids().len(),
        ensures
            r == self.acked_ids()[i as int],
    {
        self.acked[i]
    }

    fn record_ack(&mut self, id: u64)
        ensures
            final(self).acked_ids() == old(self).acked_ids().push(id),
    {
        self.acked.push(id);
    }
}

/// The lease: scoped ownership of one delivered message.
#[derive(Debug)]
pub struct CloudToDeviceMessageGuard {
    msg: CloudToDeviceMessage,
}

impl CloudToDeviceMessageGuard {
    /// The wrapped message.
    pub closed spec fn spec_message(&self) -> CloudToDeviceMessage {
        self.msg
    }

    pub fn new(msg: CloudToDeviceMessage) -> (r: Self)
        ensures
            r.spec_message() == msg,
    {
        CloudToDeviceMessageGuard { msg }
    }

    /// Read-only access to the message for the lease's whole lifetime.
    pub fn message(&self) -> (r: &CloudToDeviceMessage)
        ensures
            *r == self.spec_message(),
    {
        &self.msg
    }

    /// Law: releasing the lease issues exactly one acknowledge call for
    /// exactly its message against its consumer — no more, no fewer, and
    /// whether or not the message was ever read.  The lease is consumed,
    /// so no second acknowledge for it can be issued; its owner ties this
    /// release to every exit path.
    pub fn release(self, consumer: &mut ConsumerAcks) -> (m: CloudToDeviceMessage)
        ensures
            final(consumer).acked_ids() == old(consumer).acked_ids().push(
                self.spec_message().id,
            ),
            m == self.spec_message(),
    {
        consumer.record_ack(self.msg.id);
        self.msg
    }
}

} // verus!
