//! The rotating non-blocking writer's verifiable core: the bounded queue of
//! pending formatted records, and the per-record decision logic around a
//! write attempt (one retry after a re-open, then the record is dropped and
//! the writer degrades). The actual file I/O and the background thread live
//! outside; they feed attempt outcomes back in.

use vstd::prelude::*;

verus! {

/// The record contents of a queue, oldest first.
pub open spec fn records_view(v: Seq<String>) -> Seq<Seq<char>> {
    v.map_values(|r: String| r@)
}

proof fn lemma_records_view_push(v: Seq<String>, x: String)
    ensures
        records_view(v.push(x)) == records_view(v).push(x@),
{
    assert(records_view(v.push(x)) =~~= records_view(v).push(x@));
}

/// A bounded queue of formatted records awaiting the background writer.
/// When the queue is full a newly offered record is the one dropped
/// (drop-newest): enqueueing never blocks and never displaces what is
/// already queued.
pub struct RecordQueue {
    records: Vec<String>,
    capacity: usize,
}

impl View for RecordQueue {
    type V = Seq<Seq<char>>;

    closed spec fn view(&self) -> Seq<Seq<char>> {
        records_view(self.records@)
    }
}

impl RecordQueue {
    /// How many records the queue will hold at most.
    pub closed spec fn cap(&self) -> nat {
        self.capacity as nat
    }

    /// An empty queue holding at most `capacity` records.
    pub fn new(capacity: usize) -> (r: RecordQueue)
        requires
            capacity >= 1,
        ensures
            r@ == Seq::<Seq<char>>::empty(),
            r.cap() == capacity,
    {
        let r = RecordQueue { records: Vec::new(), capacity };
        proof {
            assert(r@ =~~= Seq::<Seq<char>>::empty());
        }
        r
    }

    /// How many records are pending.
    pub fn len(&self) -> (r: usize)
        ensures
            r == self@.len(),
    {
        self.records.len()
    }

    /// Offers a record. It is accepted exactly when the queue is not yet
    /// full; a record offered to a full queue is dropped.
    pub fn enqueue(&mut self, record: String) -> (accepted: bool)
        ensures
            accepted == (old(self)@.len() < old(self).cap()),
            accepted ==> final(self)@ == old(self)@.push(record@),
            !accepted ==> final(self)@ == old(self)@,
            final(self).cap() == old(self).cap(),
    {
        if self.records.len() < self.capacity {
            proof {
                lemma_records_view_push(self.records@, record);
            }
            self.records.push(record);
            true
        } else {
            false
        }
    }

    /// Takes the oldest pending record, if any.
    pub fn pop_front(&mut self) -> (r: Option<String>)
        ensures
            final(self).cap() == old(self).cap(),
            old(self)@.len() == 0 ==> final(self)@ == old(self)@ && r is None,
            old(self)@.len() > 0 ==> final(self)@ == old(self)@.skip(1) && (r matches Some(rec)
                && rec@ == old(self)@[0]),
    {
        if self.records.len() > 0 {
            let rec = self.records.remove(0);
            proof {
                assert(self@ =~~= old(self)@.skip(1));
            }
            Some(rec)
        } else {
            None
        }
    }

    /// Empties the queue, returning every pending record in order: the
    /// graceful drain run at shutdown, after which nothing enqueued before
    /// the drain is lost.
    pub fn drain(&mut self) -> (out: Vec<String>)
        ensures
            final(self).cap() == old(self).cap(),
            final(self)@ == Seq::<Seq<char>>::empty(),
            records_view(out@) == old(self)@,
    {
        let mut out: Vec<String> = Vec::new();
        while self.records.len() > 0
            invariant
                self.cap() == old(self).cap(),
                records_view(out@) + self@ == old(self)@,
            decreases self@.len(),
        {
            let ghost pre = self.records@;
            let ghost outpre = out@;
            let rec = self.records.remove(0);
            proof {
                lemma_records_view_push(outpre, rec);
                assert(records_view(outpre.push(rec)) + records_view(pre.remove(0))
                    =~~= records_view(outpre) + records_view(pre));
            }
            out.push(rec);
        }
        proof {
            assert(self@ =~~= Seq::<Seq<char>>::empty());
            assert(records_view(out@) =~~= old(self)@);
        }
        out
    }
}

/// What became of one record handed to the writer.
#[derive(Clone, Copy, PartialEq, Eq, Structural, Debug)]
pub enum RecordOutcome {
    /// The first write attempt persisted the record.
    Written,
    /// The first attempt failed; the retry after re-opening the file
    /// persisted the record.
    WrittenAfterRetry,
    /// Both attempts failed; the record is dropped.
    Dropped,
}

/// The background writer's sticky state: once a record is lost the writer is
/// degraded, and later failures are no longer reported one by one.
pub struct WriterState {
    pub degraded: bool,
}

impl WriterState {
    /// A fresh writer: nothing has failed yet.
    pub fn new() -> (r: WriterState)
        ensures
            !r.degraded,
    {
        WriterState { degraded: false }
    }

    /// Decides a record's fate from the outcomes of its write attempts:
    /// `first_ok` for the first attempt and, where that failed, `retry_ok`
    /// for the single retry after a re-open. Returns the outcome and whether
    /// a write error is to be reported — failures are reported only until
    /// the writer degrades.
    pub fn process_record(&mut self, first_ok: bool, retry_ok: bool) -> (r: (
        RecordOutcome,
        bool,
    ))
        ensures
            first_ok ==> r.0 == RecordOutcome::Written && r.1 == false && final(self).degraded
                == old(self).degraded,
            !first_ok ==> r.1 == !old(self).degraded,
            !first_ok && retry_ok ==> r.0 == RecordOutcome::WrittenAfterRetry
                && final(self).degraded == old(self).degraded,
            !first_ok && !retry_ok ==> r.0 == RecordOutcome::Dropped && final(self).degraded,
    {
        if first_ok {
            (RecordOutcome::Written, false)
        } else {
            let report = !self.degraded;
            if retry_ok {
                (RecordOutcome::WrittenAfterRetry, report)
            } else {
                self.degraded = true;
                (RecordOutcome::Dropped, report)
            }
        }
    }
}

} // verus!
