//! Progress accounting for a byte stream: every read that returns data is
//! counted and its size handed out as an increment, for the progress
//! display and the attached sink; empty reads hand out nothing.

use crate::callback::CallbackFun;
use vstd::prelude::*;

verus! {

/// The total of a sequence of increments.
pub open spec fn total(s: Seq<u64>) -> int
    decreases s.len(),
{
    if s.len() == 0 {
        0
    } else {
        total(s.drop_last()) + s.last()
    }
}

/// Counts the bytes delivered by a reader and hands out each nonzero
/// increment, which its reader passes on to the display and to the sink
/// the tracker holds, if any.
pub struct ProgressTracker {
    delivered: u64,
    reports: Ghost<Seq<u64>>,
    callback: Option<CallbackFun>,
}

impl ProgressTracker {
    /// Bytes delivered so far.
    pub closed spec fn delivered(&self) -> nat {
        self.delivered as nat
    }

    /// The increments `record` has returned so far, oldest first: what the
    /// sink is handed.
    pub closed spec fn reports(&self) -> Seq<u64> {
        self.reports@
    }

    /// The sink the increments go to, if any.
    pub closed spec fn sink(&self) -> Option<CallbackFun> {
        self.callback
    }

    /// The reports add up to what was delivered, and none is zero.
    pub closed spec fn wf(&self) -> bool {
        &&& total(self.reports@) == self.delivered
        &&& forall|i: int| 0 <= i < self.reports@.len() ==> self.reports@[i] > 0
    }

    pub fn new(callback: Option<CallbackFun>) -> (r: ProgressTracker)
        ensures
            r.wf(),
            r.delivered() == 0,
            r.reports() == Seq::<u64>::empty(),
            r.sink() == callback,
    {
        ProgressTracker { delivered: 0, reports: Ghost(Seq::empty()), callback }
    }

    /// The sink the increments are for, if any.
    pub fn sink_handle(&self) -> (r: &Option<CallbackFun>)
        ensures
            *r == self.sink(),
    {
        &self.callback
    }

    /// Bytes delivered so far.
    pub fn position(&self) -> (r: u64)
        ensures
            r == self.delivered(),
    {
        self.delivered
    }

    /// Accounts for one read that returned `bytes_read` bytes. A nonzero
    /// count is returned as the increment to display and to hand to the
    /// sink; a zero count (end of stream) gives none.
    pub fn record(&mut self, bytes_read: usize) -> (inc: Option<u64>)
        requires
            old(self).wf(),
            old(self).delivered() + bytes_read <= u64::MAX,
        ensures
            final(self).wf(),
            final(self).delivered() == old(self).delivered() + bytes_read,
            final(self).sink() == old(self).sink(),
            bytes_read == 0 ==> inc is None && final(self).reports() == old(self).reports(),
            bytes_read > 0 ==> inc == Some(bytes_read as u64) && final(self).reports()
                == old(self).reports().push(bytes_read as u64),
    {
        if bytes_read == 0 {
            return None;
        }
        let n = bytes_read as u64;
        self.delivered = self.delivered + n;
        proof {
            let old_reports = self.reports@;
            self.reports = Ghost(old_reports.push(n));
            assert(self.reports@.drop_last() =~= old_reports);
        }
        Some(n)
    }
}

/// The increments handed out for one stream add up to the bytes the stream
/// delivered, and none of them is zero.
pub proof fn lemma_reports_add_up(t: &ProgressTracker)
    requires
        t.wf(),
    ensures
        total(t.reports()) == t.delivered(),
        forall|i: int| 0 <= i < t.reports().len() ==> t.reports()[i] > 0,
{
}

} // verus!
