//! The internal bounded channel: an ordered FIFO of URLs coupling the queue
//! pump to the worker pool.
//!
//! The model makes both suspension points explicit: a send against a full
//! channel and a receive against an empty open channel both come back as
//! `Full` / `Empty`, which is where the real pump and the real workers
//! suspend. Closing the channel is the pool's only termination signal.

use vstd::prelude::*;

verus! {

/// Outcome of one send attempt.
pub enum SendOutcome {
    /// The item sits at the back of the channel.
    Sent,
    /// The channel is at capacity: the sender must suspend and retry with
    /// the item it gets back.
    Full(String),
    /// The channel is closed: the pipeline is torn down and the item comes
    /// back undelivered.
    Disconnected(String),
}

/// Outcome of one receive attempt.
pub enum RecvOutcome {
    /// The item that stood at the front of the channel.
    Item(String),
    /// The channel is open and empty: the receiver must suspend and retry.
    Empty,
    /// The channel is closed and drained: the receiver exits.
    Disconnected,
}

/// A bounded FIFO of URL texts.
pub struct Channel {
    items: Vec<String>,
    capacity: usize,
    open: bool,
}

impl Channel {
    /// The queued URL texts, front first.
    pub closed spec fn contents(self) -> Seq<Seq<char>> {
        self.items@.map_values(|s: String| s@)
    }

    /// The fixed bound on how many items the channel holds at once.
    pub closed spec fn cap(self) -> nat {
        self.capacity as nat
    }

    pub closed spec fn is_open(self) -> bool {
        self.open
    }

    /// The channel never holds more items than its capacity.
    pub open spec fn wf(self) -> bool {
        self.contents().len() <= self.cap()
    }

    pub fn new(capacity: usize) -> (c: Channel)
        ensures
            c.wf(),
            c.contents() == Seq::<Seq<char>>::empty(),
            c.cap() == capacity as nat,
            c.is_open(),
    {
        let c = Channel { items: Vec::new(), capacity, open: true };
        proof {
            assert(c.contents() =~= Seq::<Seq<char>>::empty());
        }
        c
    }

    pub fn len(&self) -> (n: usize)
        ensures
            n as nat == self.contents().len(),
    {
        self.items.len()
    }

    pub fn open_now(&self) -> (b: bool)
        ensures
            b == self.is_open(),
    {
        self.open
    }

    /// Try to put one item at the back. Never grows the channel past its
    /// capacity: at capacity the item comes back and the caller suspends.
    pub fn try_send(&mut self, item: String) -> (r: SendOutcome)
        requires
            old(self).wf(),
        ensures
            final(self).wf(),
            final(self).cap() == old(self).cap(),
            final(self).is_open() == old(self).is_open(),
            !old(self).is_open() ==> (r matches SendOutcome::Disconnected(it) && it@ == item@
                && final(self).contents() == old(self).contents()),
            old(self).is_open() && old(self).contents().len() < old(self).cap() ==> (r
                is Sent && final(self).contents() == old(self).contents().push(item@)),
            old(self).is_open() && old(self).contents().len() == old(self).cap() ==> (r
                matches SendOutcome::Full(it) && it@ == item@
                && final(self).contents() == old(self).contents()),
    {
        if !self.open {
            return SendOutcome::Disconnected(item);
        }
        if self.items.len() < self.capacity {
            self.items.push(item);
            proof {
                assert(self.contents() =~= old(self).contents().push(item@));
            }
            SendOutcome::Sent
        } else {
            SendOutcome::Full(item)
        }
    }

    /// Try to take the item at the front. The channel is drained in FIFO
    /// order; an empty open channel asks the receiver to suspend, an empty
    /// closed channel tells it to exit.
    pub fn try_recv(&mut self) -> (r: RecvOutcome)
        requires
            old(self).wf(),
        ensures
            final(self).wf(),
            final(self).cap() == old(self).cap(),
            final(self).is_open() == old(self).is_open(),
            old(self).contents().len() > 0 ==> (r matches RecvOutcome::Item(it)
                && it@ == old(self).contents()[0]
                && final(self).contents() == old(self).contents().drop_first()),
            old(self).contents().len() == 0 && old(self).is_open() ==> r is Empty
                && final(self).contents() == old(self).contents(),
            old(self).contents().len() == 0 && !old(self).is_open() ==> r is Disconnected
                && final(self).contents() == old(self).contents(),
    {
        if self.items.len() > 0 {
            let it = self.items.remove(0);
            proof {
                assert(self.contents() =~= old(self).contents().drop_first());
            }
            RecvOutcome::Item(it)
        } else if self.open {
            RecvOutcome::Empty
        } else {
            RecvOutcome::Disconnected
        }
    }

    /// Close the channel: the only termination signal of the pool.
    pub fn close(&mut self)
        requires
            old(self).wf(),
        ensures
            final(self).wf(),
            final(self).cap() == old(self).cap(),
            !final(self).is_open(),
            final(self).contents() == old(self).contents(),
    {
        self.open = false;
    }
}

/// The capacity rule of the pipeline: the channel holds a fixed multiple of
/// the worker count, so ingestion may run ahead of service by a bounded
/// amount only.
pub fn channel_capacity_for(workers: usize) -> (c: usize)
    requires
        workers * 4 <= usize::MAX,
    ensures
        c == workers * 4,
{
    workers * 4
}

} // verus!
