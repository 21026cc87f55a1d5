//! The hand-over of records from the session to whoever consumes them.
//!
//! Telemetry is a live feed: an old record is worth less than a new one. The
//! queue therefore has a limit, and a record that arrives at a full queue
//! pushes the oldest one out. The records that stay come out in the order in
//! which they went in. Sharing the queue between threads is the owner's
//! business.

use crate::packet::Packet;
use std::collections::VecDeque;
use vstd::prelude::*;

verus! {

/// The queue after `record` has arrived, and the record that had to leave to
/// make room, if one had to. With a limit of zero nothing is ever kept.
pub open spec fn push_spec(queue: Seq<Packet>, limit: nat, record: Packet) -> (
    Seq<Packet>,
    Option<Packet>,
) {
    if limit == 0 {
        (queue, Some(record))
    } else if queue.len() < limit {
        (queue.push(record), None)
    } else {
        (queue.drop_first().push(record), Some(queue[0]))
    }
}

/// The queue after the consumer has asked for a record, and the record it
/// got: the oldest, or none if the queue was empty.
pub open spec fn pop_spec(queue: Seq<Packet>) -> (Seq<Packet>, Option<Packet>) {
    if queue.len() == 0 {
        (queue, None)
    } else {
        (queue.drop_first(), Some(queue[0]))
    }
}

/// A bounded queue of records that drops the oldest when it is full.
pub struct RecordQueue {
    records: VecDeque<Packet>,
    limit: usize,
}

impl View for RecordQueue {
    type V = Seq<Packet>;

    /// The records in the queue, oldest first.
    closed spec fn view(&self) -> Seq<Packet> {
        self.records@
    }
}

impl RecordQueue {
    #[verifier::type_invariant]
    spec fn within_limit(self) -> bool {
        self.records@.len() <= self.limit
    }

    /// The number of records the queue keeps at most.
    pub closed spec fn limit(&self) -> nat {
        self.limit as nat
    }

    /// An empty queue that keeps at most `limit` records.
    pub fn new(limit: usize) -> (queue: RecordQueue)
        ensures
            queue@ == Seq::<Packet>::empty(),
            queue.limit() == limit,
    {
        RecordQueue { records: VecDeque::new(), limit }
    }

    /// The number of records the queue keeps at most.
    pub fn capacity(&self) -> (limit: usize)
        ensures
            limit == self.limit(),
    {
        self.limit
    }

    /// The number of records in the queue. It never exceeds the limit.
    pub fn len(&self) -> (len: usize)
        ensures
            len == self@.len(),
            len <= self.limit(),
    {
        proof {
            use_type_invariant(self);
        }
        self.records.len()
    }

    /// Whether the queue holds no record.
    pub fn is_empty(&self) -> (empty: bool)
        ensures
            empty == (self@.len() == 0),
    {
        self.records.len() == 0
    }

    /// Puts a record at the end of the queue. If the queue is full, the
    /// oldest record leaves and is returned.
    pub fn push(&mut self, record: Packet) -> (dropped: Option<Packet>)
        ensures
            final(self).limit() == old(self).limit(),
            (final(self)@, dropped) == push_spec(old(self)@, old(self).limit(), record),
            final(self)@.len() <= final(self).limit(),
    {
        proof {
            use_type_invariant(&*self);
        }
        if self.limit == 0 {
            return Some(record);
        }
        let mut records = self.take_records();
        let dropped = if records.len() == self.limit {
            records.pop_front()
        } else {
            None
        };
        records.push_back(record);
        *self = RecordQueue { records, limit: self.limit };
        dropped
    }

    /// Takes the oldest record out of the queue. Returns at once, with `None`
    /// if there is no record.
    pub fn pop(&mut self) -> (record: Option<Packet>)
        ensures
            final(self).limit() == old(self).limit(),
            (final(self)@, record) == pop_spec(old(self)@),
    {
        proof {
            use_type_invariant(&*self);
        }
        let mut records = self.take_records();
        let record = records.pop_front();
        *self = RecordQueue { records, limit: self.limit };
        record
    }

    /// Moves the records out, so that they can be changed while the queue
    /// itself stays within its limit, and leaves the queue empty.
    fn take_records(&mut self) -> (records: VecDeque<Packet>)
        ensures
            records@ == old(self)@,
            records@.len() <= old(self).limit(),
            final(self).limit() == old(self).limit(),
            final(self).limit == old(self).limit,
    {
        proof {
            use_type_invariant(&*self);
        }
        let mut records = VecDeque::new();
        core::mem::swap(&mut self.records, &mut records);
        records
    }
}

} // verus!
