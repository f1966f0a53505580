//! Ring buffer of the most recent log entries.
use vstd::prelude::*;
use std::collections::VecDeque;

verus! {

broadcast use vstd::std_specs::vecdeque::group_vec_dequeue_axioms;

/// Maximum number of entries the buffer keeps.
pub const MAX_LOG_ENTRIES: usize = 1000;

/// One captured log event.
#[derive(Debug)]
pub struct LogEntry {
    pub timestamp: i64,
    pub level: String,
    pub target: String,
    pub message: String,
}

impl Clone for LogEntry {
    fn clone(&self) -> (r: Self)
        ensures
            r == *self,
    {
        LogEntry {
            timestamp: self.timestamp,
            level: self.level.clone(),
            target: self.target.clone(),
            message: self.message.clone(),
        }
    }
}

/// Ring buffer holding the newest `MAX_LOG_ENTRIES` log entries, oldest first.
pub struct LogBuffer {
    entries: VecDeque<LogEntry>,
}

/// The entries kept after appending `e`: everything, minus the oldest when the buffer was full.
pub open spec fn after_push(entries: Seq<LogEntry>, e: LogEntry) -> Seq<LogEntry> {
    if entries.len() >= MAX_LOG_ENTRIES {
        entries.drop_first().push(e)
    } else {
        entries.push(e)
    }
}

/// The newest `count` entries (all of them when fewer), oldest first.
pub open spec fn newest(entries: Seq<LogEntry>, count: int) -> Seq<LogEntry> {
    if count >= entries.len() {
        entries
    } else {
        entries.subrange(entries.len() - count, entries.len() as int)
    }
}

impl View for LogBuffer {
    type V = Seq<LogEntry>;

    /// The entries held, oldest first.
    closed spec fn view(&self) -> Seq<LogEntry> {
        self.entries@
    }
}

impl LogBuffer {
    /// The buffer never holds more than `MAX_LOG_ENTRIES` entries.
    #[verifier::type_invariant]
    spec fn bounded(&self) -> bool {
        self.entries@.len() <= MAX_LOG_ENTRIES
    }

    /// An empty buffer.
    pub fn new() -> (r: Self)
        ensures
            r@.len() == 0,
    {
        LogBuffer { entries: VecDeque::with_capacity(MAX_LOG_ENTRIES) }
    }

    /// Appends an entry, evicting the oldest one when the buffer is full.
    pub fn push(&mut self, entry: LogEntry)
        ensures
            final(self)@ == after_push(old(self)@, entry),
            final(self)@.len() <= MAX_LOG_ENTRIES,
    {
        proof {
            use_type_invariant(&*self);
        }
        let mut entries = VecDeque::new();
        std::mem::swap(&mut entries, &mut self.entries);
        if entries.len() >= MAX_LOG_ENTRIES {
            entries.pop_front();
        }
        entries.push_back(entry);
        self.entries = entries;
    }

    /// The newest `count` entries, oldest first.
    pub fn get_recent(&self, count: usize) -> (r: Vec<LogEntry>)
        ensures
            r@ == newest(self@, count as int),
            self@.len() <= MAX_LOG_ENTRIES,
    {
        proof {
            use_type_invariant(self);
        }
        let n = self.entries.len();
        let start = if count >= n {
            0
        } else {
            n - count
        };
        let mut out: Vec<LogEntry> = Vec::new();
        let mut i = start;
        while i < n
            invariant
                n == self.entries@.len(),
                start <= i <= n,
                out@ == self.entries@.subrange(start as int, i as int),
            decreases n - i,
        {
            out.push(self.entries[i].clone());
            assert(out@ =~= self.entries@.subrange(start as int, i + 1));
            i += 1;
        }
        assert(count >= n ==> self.entries@.subrange(0, n as int) =~= self.entries@);
        out
    }

    /// Removes every entry.
    pub fn clear(&mut self)
        ensures
            final(self)@.len() == 0,
    {
        self.entries = VecDeque::new();
    }
}

/// What is read back after a write: the newest entry is the one just pushed, and the
/// buffer keeps the newest entries in arrival order.
pub proof fn lemma_push_then_recent(entries: Seq<LogEntry>, e: LogEntry, count: int)
    requires
        entries.len() <= MAX_LOG_ENTRIES,
        1 <= count,
    ensures
        newest(after_push(entries, e), 1) == seq![e],
        after_push(entries, e).len() <= MAX_LOG_ENTRIES,
        count <= entries.len() + 1 && count <= MAX_LOG_ENTRIES ==> newest(after_push(entries, e), count)
            == newest(entries, count - 1).push(e),
{
    let a = after_push(entries, e);
    assert(newest(a, 1) =~= seq![e]);
    if count <= entries.len() + 1 && count <= MAX_LOG_ENTRIES {
        assert(newest(a, count) =~= newest(entries, count - 1).push(e));
    }
}

} // verus!
