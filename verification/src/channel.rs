//! Bounded FIFO queues of command and response strings.
//!
//! Two queues decouple the device's I/O cadence from the client's: the
//! command queue carries outbound command strings from the session to
//! the writer task, the response queue carries device lines from the
//! reader task to the session.  Each is a strict FIFO with a fixed
//! capacity; a send against a full queue does not go through, which is
//! what propagates backpressure to the producer.

use vstd::prelude::*;

verus! {

/// Capacity of the queue of outbound command strings.
pub const COMMAND_CAPACITY: usize = 100;

/// Capacity of the queue of inbound device lines.
pub const RESPONSE_CAPACITY: usize = 42;

/// A bounded FIFO queue of strings.  Items come out in the order they
/// went in; once `capacity` items are held, nothing more goes in until
/// an item is consumed.
pub struct BoundedChannel {
    items: Vec<String>,
    capacity: usize,
}

impl View for BoundedChannel {
    type V = Seq<Seq<char>>;

    closed spec fn view(&self) -> Seq<Seq<char>> {
        self.items@.map_values(|s: String| s@)
    }
}

impl BoundedChannel {
    /// The fixed capacity the queue was created with.
    pub closed spec fn spec_capacity(&self) -> nat {
        self.capacity as nat
    }

    /// The queue never holds more items than its capacity.
    pub open spec fn wf(&self) -> bool {
        self@.len() <= self.spec_capacity()
    }

    /// An empty queue bounded at `capacity` items.
    pub fn new(capacity: usize) -> (ch: BoundedChannel)
        ensures
            ch@ == Seq::<Seq<char>>::empty(),
            ch.spec_capacity() == capacity,
            ch.wf(),
    {
        let ch = BoundedChannel { items: Vec::new(), capacity };
        proof {
            assert(ch@ =~= Seq::<Seq<char>>::empty());
        }
        ch
    }

    /// The number of items currently queued.
    pub fn len(&self) -> (n: usize)
        ensures
            n == self@.len(),
    {
        self.items.len()
    }

    /// The fixed capacity.
    pub fn capacity(&self) -> (c: usize)
        ensures
            c == self.spec_capacity(),
    {
        self.capacity
    }

    /// Whether a send would be refused right now.
    pub fn is_full(&self) -> (full: bool)
        ensures
            full <==> self@.len() == self.spec_capacity(),
    {
        self.items.len() == self.capacity
    }

    /// Appends `msg` at the tail, unless the queue is at capacity: a
    /// send goes through exactly when there is room, and a refused send
    /// leaves the queue untouched (the producer must wait for a
    /// consumer).
    pub fn try_send(&mut self, msg: String) -> (accepted: bool)
        requires
            old(self).wf(),
        ensures
            final(self).wf(),
            final(self).spec_capacity() == old(self).spec_capacity(),
            accepted <==> old(self)@.len() < old(self).spec_capacity(),
            accepted ==> final(self)@ == old(self)@.push(msg@),
            !accepted ==> final(self)@ == old(self)@,
    {
        if self.items.len() < self.capacity {
            let ghost before = self.items@;
            self.items.push(msg);
            proof {
                assert(self@ =~= before.map_values(|s: String| s@).push(msg@));
            }
            true
        } else {
            false
        }
    }

    /// Removes and returns the oldest item, or nothing when the queue
    /// is empty.  Consumption is strictly first-in, first-out.
    pub fn try_recv(&mut self) -> (msg: Option<String>)
        requires
            old(self).wf(),
        ensures
            final(self).wf(),
            final(self).spec_capacity() == old(self).spec_capacity(),
            old(self)@.len() == 0 ==> msg is None && final(self)@ == old(self)@,
            old(self)@.len() > 0 ==> (msg matches Some(m) && m@ == old(self)@[0] && final(self)@
                == old(self)@.skip(1)),
    {
        if self.items.len() == 0 {
            None
        } else {
            let ghost before = self.items@;
            let head = self.items.remove(0);
            proof {
                assert(self@ =~= before.map_values(|s: String| s@).skip(1));
            }
            Some(head)
        }
    }
}

/// The queue that carries outbound command strings from the session to
/// the writer task.
pub fn command_channel() -> (ch: BoundedChannel)
    ensures
        ch@ == Seq::<Seq<char>>::empty(),
        ch.spec_capacity() == COMMAND_CAPACITY,
        ch.wf(),
{
    BoundedChannel::new(COMMAND_CAPACITY)
}

/// The queue that carries inbound device lines from the reader task to
/// the session.
pub fn response_channel() -> (ch: BoundedChannel)
    ensures
        ch@ == Seq::<Seq<char>>::empty(),
        ch.spec_capacity() == RESPONSE_CAPACITY,
        ch.wf(),
{
    BoundedChannel::new(RESPONSE_CAPACITY)
}

} // verus!
