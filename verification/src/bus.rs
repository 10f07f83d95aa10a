//! The bounded multi-producer/single-consumer message bus, modelled as a
//! state machine.
//!
//! Messages admitted while a slot is free sit in `queue`; a message published
//! against a full bus is `pending`: its producer is suspended until the
//! consumer frees a slot, and the message is neither dropped nor reordered.
//! The asynchronous layer realises the suspension with a real channel; the
//! contracts here say exactly which messages are in flight and in what order.

use vstd::prelude::*;

use crate::messages::Message;
use crate::messages::SvcError;

verus! {

/// What became of a publish that was admitted.
#[derive(Debug, Clone, Copy, PartialEq, Eq, Structural)]
pub enum PublishOutcome {
    /// The message took a free slot at once.
    Delivered,
    /// The bus was full: the producer is suspended until the consumer
    /// frees a slot, and the message waits in publish order.
    Suspended,
}

/// Bounded FIFO bus from many producers to one consumer.
pub struct MessageBus {
    /// Messages holding a slot, oldest first.
    pub queue: Vec<Message>,
    /// Messages of suspended producers, in publish order.
    pub pending: Vec<Message>,
    /// Number of slots; fixed at construction.
    pub capacity: usize,
    /// The consumer side is gone; publishing fails.
    pub closed: bool,
}

impl MessageBus {
    /// Every message in flight, in publish order: slotted first, then pending.
    pub open spec fn contents(self) -> Seq<Message> {
        self.queue@ + self.pending@
    }

    /// A producer is only ever suspended while every slot is taken.
    pub open spec fn wf(self) -> bool {
        &&& 1 <= self.capacity
        &&& self.queue@.len() <= self.capacity
        &&& self.pending@.len() > 0 ==> self.queue@.len() == self.capacity
    }

    /// An empty, open bus with `capacity` slots.
    pub fn new(capacity: usize) -> (r: Self)
        requires
            1 <= capacity,
        ensures
            r.wf(),
            r.contents() == Seq::<Message>::empty(),
            r.capacity == capacity,
            !r.closed,
    {
        let r = MessageBus { queue: Vec::new(), pending: Vec::new(), capacity, closed: false };
        proof {
            assert(r.contents() =~= Seq::<Message>::empty());
        }
        r
    }

    /// Admit `m`: it takes a slot when one is free, otherwise its producer is
    /// suspended behind the full bus.  A message admitted is never lost; on a
    /// closed bus nothing is admitted and the publish fails.
    pub fn publish(&mut self, m: Message) -> (r: Result<PublishOutcome, SvcError>)
        requires
            old(self).wf(),
        ensures
            final(self).wf(),
            final(self).capacity == old(self).capacity,
            final(self).closed == old(self).closed,
            old(self).closed ==> r is Err && r->Err_0 == SvcError::DispatchFailure
                && *final(self) == *old(self),
            !old(self).closed ==> final(self).contents() == old(self).contents().push(m),
            !old(self).closed && old(self).queue@.len() < old(self).capacity ==> r is Ok
                && r->Ok_0 == PublishOutcome::Delivered
                && final(self).pending@ == old(self).pending@,
            !old(self).closed && old(self).queue@.len() == old(self).capacity ==> r is Ok
                && r->Ok_0 == PublishOutcome::Suspended
                && final(self).queue@ == old(self).queue@
                && final(self).pending@ == old(self).pending@.push(m),
    {
        if self.closed {
            return Err(SvcError::DispatchFailure);
        }
        if self.queue.len() < self.capacity {
            // wf: no producer is waiting while a slot is free, so FIFO order
            // lets m take the slot directly.
            self.queue.push(m);
            proof {
                assert(self.pending@.len() == 0);
                assert(self.contents() =~= old(self).contents().push(m));
            }
            Ok(PublishOutcome::Delivered)
        } else {
            self.pending.push(m);
            proof {
                assert(self.contents() =~= old(self).contents().push(m));
            }
            Ok(PublishOutcome::Suspended)
        }
    }

    /// Take the oldest message in flight, if any.  Freeing the slot resumes
    /// the longest-suspended producer: its message moves into the freed slot.
    pub fn recv(&mut self) -> (r: Option<Message>)
        requires
            old(self).wf(),
        ensures
            final(self).wf(),
            final(self).capacity == old(self).capacity,
            final(self).closed == old(self).closed,
            old(self).contents().len() == 0 ==> r is None && *final(self) == *old(self),
            old(self).contents().len() > 0 ==> r is Some
                && r->Some_0 == old(self).contents()[0]
                && final(self).contents() == old(self).contents().drop_first(),
            old(self).pending@.len() > 0 ==> final(self).pending@ == old(self).pending@.drop_first()
                && final(self).queue@ == old(self).queue@.drop_first().push(old(self).pending@[0]),
    {
        if self.queue.len() == 0 {
            // wf: nobody is suspended at an empty bus, so nothing is in flight.
            proof {
                assert(old(self).contents().len() == 0);
            }
            None
        } else {
            let m = self.queue.remove(0);
            if self.pending.len() > 0 {
                let p = self.pending.remove(0);
                self.queue.push(p);
            }
            proof {
                assert(self.contents() =~= old(self).contents().drop_first());
            }
            Some(m)
        }
    }

    /// Record that the consumer side is gone; later publishes fail.
    pub fn close(&mut self)
        ensures
            *final(self) == (MessageBus { closed: true, ..*old(self) }),
    {
        self.closed = true;
    }
}

} // verus!
