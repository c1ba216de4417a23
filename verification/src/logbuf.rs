//! The central in-memory log: a bounded buffer of entries, oldest dropped
//! first. Owned and injected rather than held in a process-wide static, so
//! lifetime and test isolation stay explicit.

use vstd::prelude::*;

verus! {

/// How many entries the buffer retains.
pub const LOG_CAPACITY: usize = 200;

/// One log line: when, at what level, and what.
#[derive(Clone, Debug)]
pub struct LogEntry {
    /// Wall-clock time the entry was recorded, preformatted.
    pub timestamp: String,
    /// Severity label, such as `info` or `error`.
    pub level: String,
    /// The message itself.
    pub message: String,
}

impl LogEntry {
    /// The entry as a triple of character sequences.
    pub open spec fn view(&self) -> (Seq<char>, Seq<char>, Seq<char>) {
        (self.timestamp@, self.level@, self.message@)
    }
}

/// The entries of a sequence as triples of character sequences.
pub open spec fn views_of(s: Seq<LogEntry>) -> Seq<(Seq<char>, Seq<char>, Seq<char>)> {
    s.map(|i: int, e: LogEntry| e.view())
}

/// A bounded log buffer: at most `LOG_CAPACITY` entries, oldest first.
pub struct LogBuffer {
    entries: Vec<LogEntry>,
}

impl LogBuffer {
    /// The retained entries, oldest first.
    pub closed spec fn entries_view(&self) -> Seq<LogEntry> {
        self.entries@
    }

    /// The buffer never grows past its capacity.
    pub open spec fn wf(&self) -> bool {
        self.entries_view().len() <= LOG_CAPACITY
    }

    /// An empty buffer.
    pub fn new() -> (r: Self)
        ensures
            r.wf(),
            r.entries_view() == Seq::<LogEntry>::empty(),
    {
        LogBuffer { entries: Vec::new() }
    }

    /// How many entries are retained.
    pub fn len(&self) -> (n: usize)
        ensures
            n == self.entries_view().len(),
    {
        self.entries.len()
    }

    /// Appends an entry; when the buffer is full the oldest entry is dropped
    /// so that exactly the last `LOG_CAPACITY` entries remain.
    pub fn add_log_entry(&mut self, entry: LogEntry)
        requires
            old(self).wf(),
        ensures
            final(self).wf(),
            old(self).entries_view().len() < LOG_CAPACITY ==> final(self).entries_view() == old(
                self,
            ).entries_view().push(entry),
            old(self).entries_view().len() == LOG_CAPACITY ==> final(self).entries_view() == old(
                self,
            ).entries_view().skip(1).push(entry),
    {
        if self.entries.len() == LOG_CAPACITY {
            self.entries.remove(0);
            proof {
                assert(self.entries@ =~= old(self).entries@.skip(1));
            }
        }
        self.entries.push(entry);
    }

    /// The most recent entries, newest last: all of them, or the last
    /// `limit` when a limit is given.
    pub fn recent(&self, limit: Option<usize>) -> (r: Vec<LogEntry>)
        ensures
            ({
                let n = self.entries_view().len() as int;
                let keep: int = match limit {
                    Some(l) => if l < n {
                        l as int
                    } else {
                        n
                    },
                    None => n,
                };
                views_of(r@) == views_of(self.entries_view().skip(n - keep))
            }),
    {
        let n = self.entries.len();
        let start: usize = match limit {
            Some(l) => if l < n {
                n - l
            } else {
                0
            },
            None => 0,
        };
        let mut out: Vec<LogEntry> = Vec::new();
        let mut i: usize = start;
        while i < n
            invariant
                n == self.entries_view().len(),
                start <= i <= n,
                views_of(out@) == views_of(self.entries_view().subrange(start as int, i as int)),
            decreases n - i,
        {
            let e = &self.entries[i];
            let copy = LogEntry {
                timestamp: e.timestamp.clone(),
                level: e.level.clone(),
                message: e.message.clone(),
            };
            let ghost pre_out = out@;
            out.push(copy);
            proof {
                assert(copy.view() == self.entries_view()[i as int].view());
                assert(out@ == pre_out.push(copy));
                let a = views_of(out@);
                let b = views_of(self.entries_view().subrange(start as int, i + 1 as int));
                let prev = self.entries_view().subrange(start as int, i as int);
                assert(views_of(pre_out).len() == pre_out.len());
                assert(views_of(prev).len() == prev.len());
                assert(a.len() == out@.len());
                assert(b.len() == i + 1 - start);
                assert(a.len() == b.len());
                assert forall|k: int| 0 <= k < a.len() implies a[k] == b[k] by {
                    assert(a[k] == out@[k].view());
                    assert(b[k] == self.entries_view().subrange(start as int, i + 1 as int)[
                        k].view());
                    if k < i - start {
                        assert(out@[k] == pre_out[k]);
                        assert(self.entries_view().subrange(start as int, i + 1 as int)[k]
                            == prev[k]);
                        assert(views_of(pre_out)[k] == views_of(prev)[k]);
                        assert(views_of(pre_out)[k] == pre_out[k].view());
                        assert(views_of(prev)[k] == prev[k].view());
                    } else {
                        assert(out@[k] == copy);
                        assert(self.entries_view().subrange(start as int, i + 1 as int)[k]
                            == self.entries_view()[i as int]);
                    }
                }
                assert(a =~= b);
            }
            i = i + 1;
        }
        proof {
            assert(self.entries_view().subrange(start as int, n as int) =~= self.entries_view()
                .skip(start as int));
        }
        out
    }
}

} // verus!
