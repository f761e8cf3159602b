use vstd::prelude::*;

use crate::event::EventRecord;

verus! {

/// The event-emission channel: a bounded, append-only transport that carries
/// records out of the probe without blocking it. A write either appends the
/// record (when the channel has room) or is rejected at once; nothing ever
/// waits or retries. The channel also counts every write attempt, accepted or
/// not, so that contracts can state how many attempts a caller made.
pub struct EventChannel {
    records: Vec<EventRecord>,
    capacity: usize,
    attempts: Ghost<nat>,
}

impl EventChannel {
    /// The records the channel holds, oldest first.
    pub closed spec fn records(&self) -> Seq<EventRecord> {
        self.records@
    }

    /// The most records the channel can hold at once.
    pub closed spec fn capacity(&self) -> nat {
        self.capacity as nat
    }

    /// How many write attempts have been made on this channel, accepted or not.
    pub closed spec fn attempts(&self) -> nat {
        self.attempts@
    }

    /// A channel never holds more records than its capacity.
    pub open spec fn wf(&self) -> bool {
        self.records().len() <= self.capacity()
    }

    /// Whether the next write will be accepted.
    pub open spec fn has_room(&self) -> bool {
        self.records().len() < self.capacity()
    }

    /// An empty channel that can hold up to `capacity` records.
    pub fn new(capacity: usize) -> (c: EventChannel)
        ensures
            c.wf(),
            c.records() == Seq::<EventRecord>::empty(),
            c.capacity() == capacity as nat,
            c.attempts() == 0,
    {
        EventChannel { records: Vec::new(), capacity, attempts: Ghost(0) }
    }

    /// One write attempt: the record is appended and accepted exactly when the
    /// channel has room, and rejected, leaving the contents unchanged, when it
    /// is full. Either way the attempt is counted and the call returns at once.
    pub fn try_write(&mut self, rec: EventRecord) -> (accepted: bool)
        requires
            old(self).wf(),
        ensures
            final(self).wf(),
            final(self).capacity() == old(self).capacity(),
            final(self).attempts() == old(self).attempts() + 1,
            accepted == old(self).has_room(),
            accepted ==> final(self).records() == old(self).records().push(rec),
            !accepted ==> final(self).records() == old(self).records(),
    {
        proof {
            self.attempts@ = self.attempts@ + 1;
        }
        if self.records.len() < self.capacity {
            self.records.push(rec);
            true
        } else {
            false
        }
    }

    /// How many records the channel holds now.
    pub fn len(&self) -> (n: usize)
        ensures
            n == self.records().len(),
    {
        self.records.len()
    }

    /// The record at position `i`, oldest first, without removing it.
    pub fn record_at(&self, i: usize) -> (r: EventRecord)
        requires
            i < self.records().len(),
        ensures
            r == self.records()[i as int],
    {
        self.records[i]
    }

    /// The most records the channel can hold at once.
    pub fn capacity_limit(&self) -> (n: usize)
        ensures
            n == self.capacity(),
    {
        self.capacity
    }
}

} // verus!
