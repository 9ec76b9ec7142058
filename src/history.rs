//! A bounded record of the most recent disconnect times.
use vstd::prelude::*;

verus! {

/// How many disconnect times are kept.
pub const DISCONNECT_HISTORY_LEN: usize = 5;

/// `h` after recording `t`: appended at the back, the oldest dropped
/// once more than the bound are held.
pub open spec fn recorded(h: Seq<i64>, t: i64) -> Seq<i64> {
    let h2 = h.push(t);
    if h2.len() > DISCONNECT_HISTORY_LEN {
        h2.drop_first()
    } else {
        h2
    }
}

/// `h` after recording each of `ts` in order.
pub open spec fn recorded_all(h: Seq<i64>, ts: Seq<i64>) -> Seq<i64>
    decreases ts.len(),
{
    if ts.len() == 0 {
        h
    } else {
        recorded(recorded_all(h, ts.drop_last()), ts.last())
    }
}

/// Disconnect times in milliseconds since the Unix epoch, oldest first.
pub struct DisconnectHistory {
    entries: std::collections::VecDeque<i64>,
}

impl View for DisconnectHistory {
    type V = Seq<i64>;

    closed spec fn view(&self) -> Seq<i64> {
        self.entries@
    }
}

impl DisconnectHistory {
    pub open spec fn wf(&self) -> bool {
        self@.len() <= DISCONNECT_HISTORY_LEN
    }

    pub fn new() -> (r: Self)
        ensures
            r@ == Seq::<i64>::empty(),
            r.wf(),
    {
        DisconnectHistory { entries: std::collections::VecDeque::new() }
    }

    /// Records a disconnect at time `t`, evicting the oldest past the bound.
    pub fn record(&mut self, t: i64)
        requires
            old(self).wf(),
        ensures
            final(self)@ == recorded(old(self)@, t),
            final(self).wf(),
    {
        self.entries.push_back(t);
        if self.entries.len() > DISCONNECT_HISTORY_LEN {
            let _ = self.entries.pop_front();
        }
        assert(self.entries@ =~= recorded(old(self)@, t));
    }

    /// The recorded times, oldest first.
    pub fn entries(&self) -> (r: Vec<i64>)
        ensures
            r@ == self@,
    {
        let mut out: Vec<i64> = Vec::new();
        let mut i: usize = 0;
        while i < self.entries.len()
            invariant
                i <= self.entries@.len(),
                out@ == self.entries@.take(i as int),
            decreases self.entries@.len() - i,
        {
            out.push(self.entries[i]);
            i = i + 1;
            assert(out@ =~= self.entries@.take(i as int));
        }
        assert(self.entries@.take(i as int) =~= self.entries@);
        out
    }

    pub fn len(&self) -> (r: usize)
        ensures
            r == self@.len(),
    {
        self.entries.len()
    }
}

/// The history never holds more than its bound, and starting from empty it
/// holds exactly the latest times recorded, oldest first: once more than the
/// bound have been recorded, the earliest are the ones evicted.
pub proof fn lemma_history_keeps_latest(ts: Seq<i64>)
    ensures
        recorded_all(Seq::<i64>::empty(), ts).len() <= DISCONNECT_HISTORY_LEN,
        ts.len() <= DISCONNECT_HISTORY_LEN ==> recorded_all(Seq::<i64>::empty(), ts) == ts,
        ts.len() > DISCONNECT_HISTORY_LEN ==> recorded_all(Seq::<i64>::empty(), ts)
            == ts.subrange(ts.len() - DISCONNECT_HISTORY_LEN, ts.len() as int),
    decreases ts.len(),
{
    if ts.len() > 0 {
        let prev = ts.drop_last();
        lemma_history_keeps_latest(prev);
        if ts.len() <= DISCONNECT_HISTORY_LEN {
            assert(prev.push(ts.last()) =~= ts);
        } else if prev.len() <= DISCONNECT_HISTORY_LEN {
            assert(prev.push(ts.last()).drop_first() =~= ts.subrange(
                ts.len() - DISCONNECT_HISTORY_LEN,
                ts.len() as int,
            ));
        } else {
            assert(prev.subrange(prev.len() - DISCONNECT_HISTORY_LEN, prev.len() as int).push(
                ts.last(),
            ).drop_first() =~= ts.subrange(ts.len() - DISCONNECT_HISTORY_LEN, ts.len() as int));
        }
    }
}

} // verus!
