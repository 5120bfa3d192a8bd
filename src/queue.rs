use vstd::prelude::*;
use crate::error::TimberlogsError;
use crate::record::OutboundRecord;

verus! {

/// Records waiting to be sent, oldest first.
pub struct LogQueue {
    records: Vec<OutboundRecord>,
}

impl View for LogQueue {
    type V = Seq<OutboundRecord>;

    closed spec fn view(&self) -> Seq<OutboundRecord> {
        self.records@
    }
}

impl LogQueue {
    pub fn new() -> (r: LogQueue)
        ensures
            r@.len() == 0,
    {
        LogQueue { records: Vec::new() }
    }

    pub fn len(&self) -> (r: usize)
        ensures
            r == self@.len(),
    {
        self.records.len()
    }

    pub fn is_empty(&self) -> (r: bool)
        ensures
            r == (self@.len() == 0),
    {
        self.records.len() == 0
    }

    /// Appends a record; the result tells whether the queue has reached
    /// `batch_size`, in which case the caller flushes.
    pub fn enqueue(&mut self, record: OutboundRecord, batch_size: usize) -> (flush_now: bool)
        ensures
            final(self)@ == old(self)@.push(record),
            flush_now == (final(self)@.len() >= batch_size),
            accepted_step(old(self)@, final(self)@, flush_now, batch_size),
    {
        self.records.push(record);
        proof {
            assert(self@.drop_last() =~= old(self)@);
        }
        self.records.len() >= batch_size
    }

    /// Takes every queued record at once, leaving the queue empty. An empty
    /// queue gives `None`: there is nothing to send.
    pub fn drain(&mut self) -> (r: Option<Vec<OutboundRecord>>)
        ensures
            old(self)@.len() == 0 ==> r is None && final(self)@ == old(self)@,
            old(self)@.len() > 0 ==> r is Some && r->0@ == old(self)@ && final(self)@.len() == 0,
    {
        if self.records.len() == 0 {
            return None;
        }
        let mut drained = Vec::new();
        drained.append(&mut self.records);
        Some(drained)
    }

    /// Puts a batch that could not be delivered back in front of the records
    /// queued since it was drained.
    pub fn restore(&mut self, batch: Vec<OutboundRecord>)
        ensures
            final(self)@ == batch@ + old(self)@,
    {
        let mut batch = batch;
        batch.append(&mut self.records);
        self.records = batch;
    }

    /// Ends a flush of `batch`: a delivered batch is dropped, a failed one is
    /// restored. The send's result is handed back unchanged.
    pub fn finish_flush(
        &mut self,
        batch: Vec<OutboundRecord>,
        sent: Result<(), TimberlogsError>,
    ) -> (r: Result<(), TimberlogsError>)
        ensures
            r == sent,
            sent is Ok ==> final(self)@ == old(self)@,
            sent is Err ==> final(self)@ == batch@ + old(self)@,
    {
        match sent {
            Ok(u) => Ok(u),
            Err(e) => {
                self.restore(batch);
                Err(e)
            },
        }
    }
}

/// What one accepted record does to the queue: it is appended, and a flush
/// is asked for exactly when the queue has reached the batch size.
pub open spec fn accepted_step(before: Seq<OutboundRecord>, after: Seq<OutboundRecord>, flush_now: bool, batch_size: usize) -> bool {
    &&& after.len() == before.len() + 1
    &&& after.drop_last() == before
    &&& flush_now == (after.len() >= batch_size)
}

proof fn lemma_growth(states: Seq<Seq<OutboundRecord>>, flushes: Seq<bool>, batch_size: usize, k: int)
    requires
        states.len() == flushes.len() + 1,
        states[0].len() == 0,
        forall|i: int| 0 <= i < flushes.len() ==> accepted_step(states[i], #[trigger] states[i + 1], flushes[i], batch_size),
        0 <= k < states.len(),
    ensures
        states[k].len() == k,
        forall|j: int| 0 <= j <= k ==> (#[trigger] states[k].take(j)) == states[j],
    decreases k,
{
    if k > 0 {
        lemma_growth(states, flushes, batch_size, k - 1);
        assert(accepted_step(states[k - 1], states[k], flushes[k - 1], batch_size));
        assert forall|j: int| 0 <= j <= k implies (#[trigger] states[k].take(j)) == states[j] by {
            if j == k {
                assert(states[k].take(j) =~= states[k]);
            } else {
                assert(states[k].take(j) =~= states[k].drop_last().take(j));
            }
        }
    } else {
        assert(states[0].take(0) =~= states[0]);
    }
}

/// From an empty queue, `batch_size` accepted records in a row ask for a
/// flush at the last one and at no earlier one, and the queue then holds
/// exactly those records, in the order they were logged.
pub proof fn lemma_batch_trigger(states: Seq<Seq<OutboundRecord>>, flushes: Seq<bool>, batch_size: usize)
    requires
        batch_size >= 1,
        flushes.len() == batch_size,
        states.len() == batch_size + 1,
        states[0].len() == 0,
        forall|i: int| 0 <= i < flushes.len() ==> accepted_step(states[i], #[trigger] states[i + 1], flushes[i], batch_size),
    ensures
        forall|i: int| 0 <= i < flushes.len() ==> (#[trigger] flushes[i] <==> i == batch_size - 1),
        states.last().len() == batch_size,
        forall|i: int| 0 <= i < batch_size ==> #[trigger] states.last()[i] == states[i + 1].last(),
{
    let n = batch_size as int;
    lemma_growth(states, flushes, batch_size, n);
    assert forall|i: int| 0 <= i < flushes.len() implies (#[trigger] flushes[i] <==> i == batch_size - 1) by {
        lemma_growth(states, flushes, batch_size, i + 1);
        assert(accepted_step(states[i], states[i + 1], flushes[i], batch_size));
    }
    assert forall|i: int| 0 <= i < batch_size implies #[trigger] states.last()[i] == states[i + 1].last() by {
        lemma_growth(states, flushes, batch_size, i + 1);
        assert(states[n].take(i + 1) == states[i + 1]);
        assert(states[n].take(i + 1)[i] == states[n][i]);
    }
}

/// A failed flush loses and reorders nothing: the drained batch comes back
/// ahead of what arrived meanwhile, each part in its own order.
pub proof fn lemma_restore_keeps_order(batch: Seq<OutboundRecord>, arrived: Seq<OutboundRecord>)
    ensures
        (batch + arrived).len() == batch.len() + arrived.len(),
        (batch + arrived).take(batch.len() as int) == batch,
        (batch + arrived).skip(batch.len() as int) == arrived,
{
    assert((batch + arrived).take(batch.len() as int) =~= batch);
    assert((batch + arrived).skip(batch.len() as int) =~= arrived);
}

} // verus!
