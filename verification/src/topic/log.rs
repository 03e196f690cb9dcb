//! A topic's message log: the published entries in the order they were
//! appended, trimmed to the topic's retention policy after each append.

use bytes::Bytes;
use vstd::prelude::*;
use crate::payload::bytes_content;
use crate::topic::retention::RetentionPolicy;

verus! {

/// One published message as the log keeps it.
#[derive(Debug)]
pub struct LogEntry {
    /// The offset the message was given.
    pub offset: i64,
    /// The publisher's session, if the frame named one.
    pub publisher_session: Option<String>,
    /// The message id.
    pub message_id: String,
    /// The message class: the frame's event name, or `event`.
    pub class: String,
    /// The frame's event name.
    pub event: Option<String>,
    /// The payload.
    pub payload: Bytes,
    /// The sender's timestamp (ms since epoch).
    pub timestamp: i64,
}

/// A log entry as values.
pub struct LogEntryView {
    pub offset: i64,
    pub publisher_session: Option<Seq<char>>,
    pub message_id: Seq<char>,
    pub class: Seq<char>,
    pub event: Option<Seq<char>>,
    pub payload: Seq<u8>,
    pub timestamp: i64,
}

/// The text of an optional string.
pub open spec fn opt_text(s: Option<String>) -> Option<Seq<char>> {
    match s {
        Some(t) => Some(t@),
        None => None,
    }
}

impl View for LogEntry {
    type V = LogEntryView;

    open spec fn view(&self) -> LogEntryView {
        LogEntryView {
            offset: self.offset,
            publisher_session: opt_text(self.publisher_session),
            message_id: self.message_id@,
            class: self.class@,
            event: opt_text(self.event),
            payload: bytes_content(self.payload),
            timestamp: self.timestamp,
        }
    }
}

fn clone_text(s: &Option<String>) -> (r: Option<String>)
    ensures
        opt_text(r) == opt_text(*s),
{
    match s {
        Some(t) => Some(t.clone()),
        None => None,
    }
}

impl LogEntry {
    /// A copy of the entry.
    pub fn duplicate(&self) -> (r: LogEntry)
        ensures
            r@ == self@,
    {
        LogEntry {
            offset: self.offset,
            publisher_session: clone_text(&self.publisher_session),
            message_id: self.message_id.clone(),
            class: self.class.clone(),
            event: clone_text(&self.event),
            payload: self.payload.clone(),
            timestamp: self.timestamp,
        }
    }
}

/// The entries a log keeps after an append under `retention`: none
/// without retention; the newest `n` under a positive count `n`; the
/// newest one under latest-only; all of them under the other policies.
pub open spec fn retained(log: Seq<LogEntryView>, retention: RetentionPolicy) -> Seq<LogEntryView> {
    match retention {
        RetentionPolicy::NoRetention => Seq::empty(),
        RetentionPolicy::Count(n) => if n > 0 && log.len() > n {
            log.skip(log.len() - n)
        } else {
            log
        },
        RetentionPolicy::Latest => if log.len() > 1 {
            log.skip(log.len() - 1)
        } else {
            log
        },
        _ => log,
    }
}

/// The entries of `log` with an offset in `from..=to`, in log order.
pub open spec fn entries_in_range(log: Seq<LogEntryView>, from: i64, to: i64) -> Seq<LogEntryView>
    decreases log.len(),
{
    if log.len() == 0 {
        Seq::empty()
    } else if from <= log.last().offset && log.last().offset <= to {
        entries_in_range(log.drop_last(), from, to).push(log.last())
    } else {
        entries_in_range(log.drop_last(), from, to)
    }
}

/// The views of the entries, in order.
pub open spec fn entry_views(s: Seq<LogEntry>) -> Seq<LogEntryView> {
    Seq::new(s.len(), |i: int| s[i]@)
}

/// One topic's log.
pub struct TopicLog {
    entries: Vec<LogEntry>,
}

impl View for TopicLog {
    type V = Seq<LogEntryView>;

    closed spec fn view(&self) -> Seq<LogEntryView> {
        entry_views(self.entries@)
    }
}

impl TopicLog {
    /// An empty log.
    pub fn new() -> (r: TopicLog)
        ensures
            r@ == Seq::<LogEntryView>::empty(),
    {
        let r = TopicLog { entries: Vec::new() };
        assert(r@ =~= Seq::<LogEntryView>::empty());
        r
    }

    /// Appends `entry`, then trims the log to `retention`.
    pub fn append(&mut self, entry: LogEntry, retention: &RetentionPolicy)
        ensures
            final(self)@ == retained(old(self)@.push(entry@), *retention),
    {
        let ghost e = entry@;
        let ghost before = self@;
        self.entries.push(entry);
        assert(self@ =~= before.push(e));
        let len = self.entries.len();
        let keep: usize = match retention {
            RetentionPolicy::NoRetention => 0,
            RetentionPolicy::Count(n) => if *n > 0 && len > *n {
                *n
            } else {
                len
            },
            RetentionPolicy::Latest => if len > 1 {
                1
            } else {
                len
            },
            _ => len,
        };
        if keep < len {
            let ghost full = self@;
            let mut kept: Vec<LogEntry> = Vec::new();
            let start = len - keep;
            let mut i: usize = start;
            while i < self.entries.len()
                invariant
                    start <= i <= self.entries@.len(),
                    self.entries@.len() == len,
                    self@ == full,
                    entry_views(kept@) == full.subrange(start as int, i as int),
                decreases self.entries@.len() - i,
            {
                let c = self.entries[i].duplicate();
                let ghost k0 = kept@;
                kept.push(c);
                assert(entry_views(kept@) =~= entry_views(k0).push(full[i as int]));
                assert(full.subrange(start as int, i as int + 1) =~= full.subrange(
                    start as int,
                    i as int,
                ).push(full[i as int]));
                i = i + 1;
            }
            self.entries = kept;
            assert(self@ =~= full.skip(start as int));
        }
        proof {
            let full = before.push(e);
            if keep == len {
                assert(retained(full, *retention) =~= full);
            }
            if keep == 0 {
                assert(full.skip(len as int) =~= Seq::<LogEntryView>::empty());
            }
        }
    }

    /// The entries with an offset in `from..=to`, in log order.
    pub fn range(&self, from: i64, to: i64) -> (r: Vec<LogEntry>)
        ensures
            entry_views(r@) == entries_in_range(self@, from, to),
    {
        let mut out: Vec<LogEntry> = Vec::new();
        let mut i: usize = 0;
        while i < self.entries.len()
            invariant
                i <= self.entries@.len(),
                entry_views(out@) == entries_in_range(self@.take(i as int), from, to),
            decreases self.entries@.len() - i,
        {
            let ghost s = self@;
            assert(s.take(i as int + 1).drop_last() =~= s.take(i as int));
            assert(s.take(i as int + 1).last() == s[i as int]);
            let o = self.entries[i].offset;
            if from <= o && o <= to {
                let c = self.entries[i].duplicate();
                let ghost k0 = out@;
                out.push(c);
                assert(entry_views(out@) =~= entry_views(k0).push(s[i as int]));
            }
            i = i + 1;
        }
        assert(self@.take(self.entries@.len() as int) =~= self@);
        out
    }

    /// The entry appended last, if any.
    pub fn latest(&self) -> (r: Option<LogEntry>)
        ensures
            self@.len() == 0 ==> r is None,
            self@.len() > 0 ==> (r matches Some(e) && e@ == self@.last()),
    {
        let n = self.entries.len();
        if n == 0 {
            None
        } else {
            Some(self.entries[n - 1].duplicate())
        }
    }

    /// The number of entries kept.
    pub fn len(&self) -> (r: usize)
        ensures
            r == self@.len(),
    {
        self.entries.len()
    }
}

} // verus!
