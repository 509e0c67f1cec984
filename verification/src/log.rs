use vstd::prelude::*;
use crate::bounded::{BoundedQueue, keep_last};

verus! {

/// How many messages the log keeps.
pub const LOG_CAP: usize = 100;

/// The console's message log: the newest hundred messages, oldest first.
pub struct EventLog {
    entries: BoundedQueue<String>,
}

impl View for EventLog {
    type V = Seq<Seq<char>>;

    closed spec fn view(&self) -> Seq<Seq<char>> {
        self.entries@.map_values(|s: String| s@)
    }
}

impl EventLog {
    pub closed spec fn wf(&self) -> bool {
        self.entries.capacity() == LOG_CAP
    }

    pub fn new() -> (log: EventLog)
        ensures
            log@ == Seq::<Seq<char>>::empty(),
            log.wf(),
    {
        let log = EventLog { entries: BoundedQueue::new(LOG_CAP) };
        assert(log@ =~= Seq::<Seq<char>>::empty());
        log
    }

    /// Adds a message; past a hundred, the oldest one goes.
    pub fn push(&mut self, message: String)
        requires
            old(self).wf(),
        ensures
            final(self).wf(),
            final(self)@ == keep_last(old(self)@.push(message@), LOG_CAP as nat),
            final(self)@.len() <= LOG_CAP,
    {
        let ghost before = self.entries@;
        self.entries.push(message);
        proof {
            let all = before.push(message);
            let f = |s: String| s@;
            assert(all.map_values(f) =~= before.map_values(f).push(message@));
            if all.len() > LOG_CAP {
                assert(all.skip(all.len() - LOG_CAP).map_values(f) =~= all.map_values(f).skip(
                    all.len() - LOG_CAP,
                ));
            }
        }
    }

    pub fn len(&self) -> (n: usize)
        ensures
            n == self@.len(),
    {
        self.entries.len()
    }

    /// The newest `n` messages (all of them when there are fewer), oldest first.
    pub fn recent(&self, n: usize) -> (msgs: Vec<String>)
        ensures
            msgs@.map_values(|s: String| s@) == (if self@.len() > n {
                self@.skip(self@.len() - n)
            } else {
                self@
            }),
    {
        let len = self.entries.len();
        let skip = if len > n { len - n } else { 0 };
        let mut out: Vec<String> = Vec::new();
        let mut i = skip;
        while i < len
            invariant
                skip <= i <= len,
                len == self.entries@.len(),
                out@.map_values(|s: String| s@) =~= self@.subrange(skip as int, i as int),
            decreases len - i,
        {
            let ghost prev = out@;
            let m = self.entries.get(i).clone();
            out.push(m);
            proof {
                let f = |s: String| s@;
                assert(self@[i as int] == m@);
                assert(out@.map_values(f) =~= prev.map_values(f).push(m@));
                assert(self@.subrange(skip as int, i + 1) =~= self@.subrange(skip as int, i as int).push(
                    self@[i as int],
                ));
            }
            i = i + 1;
        }
        proof {
            assert(self@.len() == len);
            if len > n {
                assert(self@.subrange(skip as int, len as int) =~= self@.skip(self@.len() - n));
            } else {
                assert(self@.subrange(0, len as int) =~= self@);
            }
        }
        out
    }
}

/// Whatever was in the log, the message just pushed is the newest one the
/// log hands back.
pub proof fn lemma_push_then_recent(before: Seq<Seq<char>>, m: Seq<char>)
    requires
        before.len() <= LOG_CAP,
    ensures
        ({
            let after = keep_last(before.push(m), LOG_CAP as nat);
            &&& after.len() >= 1
            &&& after.skip(after.len() - 1) == seq![m]
            &&& after.len() <= LOG_CAP
        }),
{
    let after = keep_last(before.push(m), LOG_CAP as nat);
    assert(after.last() == m);
    assert(after.skip(after.len() - 1) =~= seq![m]);
}

} // verus!
