//! Bounded capture of the supervised process's output.
//!
//! The ring keeps the most recent entries up to its bound; when a new entry
//! would exceed the bound the oldest entries leave first. Entries never
//! change order.

use std::collections::VecDeque;
use vstd::prelude::*;
use vstd::string::StringExecFns;

verus! {

/// How many entries a ring keeps unless told otherwise.
pub const MAX_LOG_ENTRIES: usize = 200;

/// The output stream a line was read from.
#[derive(Clone, Copy, Debug, PartialEq, Eq, Structural)]
pub enum LogStream {
    Stdout,
    Stderr,
}

/// One captured line of output.
#[derive(Debug)]
pub struct LogEntry {
    pub stream: LogStream,
    pub text: String,
}

/// The mathematical value of a [`LogEntry`].
pub struct LogEntryView {
    pub stream: LogStream,
    pub text: Seq<char>,
}

impl View for LogEntry {
    type V = LogEntryView;

    open spec fn view(&self) -> LogEntryView {
        LogEntryView { stream: self.stream, text: self.text@ }
    }
}

/// The tag that a snapshot puts in front of a line of the given stream.
pub open spec fn stream_tag(stream: LogStream) -> Seq<char> {
    match stream {
        LogStream::Stdout => "[STDOUT] "@,
        LogStream::Stderr => "[STDERR] "@,
    }
}

/// One entry as it appears in a snapshot: its tag, then its text.
pub open spec fn render_entry(entry: LogEntryView) -> Seq<char> {
    stream_tag(entry.stream) + entry.text
}

/// The entries of a snapshot in order, one after the other, with nothing
/// between them.
pub open spec fn render_all(entries: Seq<LogEntryView>) -> Seq<char>
    decreases entries.len(),
{
    if entries.len() == 0 {
        Seq::empty()
    } else {
        render_all(entries.drop_last()) + render_entry(entries.last())
    }
}

/// The last `bound` items of `items`, or all of them if there are fewer.
pub open spec fn keep_latest<T>(items: Seq<T>, bound: nat) -> Seq<T> {
    if items.len() <= bound {
        items
    } else {
        items.skip(items.len() - bound)
    }
}

/// What a ring with the given bound holds after `added` were appended one
/// by one to a ring that held `held`.
pub open spec fn append_each(
    held: Seq<LogEntryView>,
    bound: nat,
    added: Seq<LogEntryView>,
) -> Seq<LogEntryView>
    decreases added.len(),
{
    if added.len() == 0 {
        held
    } else {
        keep_latest(append_each(held, bound, added.drop_last()).push(added.last()), bound)
    }
}

/// A bounded, ordered buffer of log entries.
#[derive(Debug)]
pub struct LogRing {
    entries: VecDeque<LogEntry>,
    bound: usize,
}

impl View for LogRing {
    type V = Seq<LogEntryView>;

    closed spec fn view(&self) -> Seq<LogEntryView> {
        self.entries@.map_values(|e: LogEntry| e@)
    }
}

impl LogRing {
    /// The largest number of entries the ring keeps.
    pub closed spec fn bound(&self) -> nat {
        self.bound as nat
    }

    /// An empty ring that keeps at most `bound` entries.
    pub fn new(bound: usize) -> (ring: LogRing)
        ensures
            ring@ == Seq::<LogEntryView>::empty(),
            ring.bound() == bound,
    {
        let ring = LogRing { entries: VecDeque::new(), bound };
        assert(ring@ =~= Seq::<LogEntryView>::empty());
        ring
    }

    /// The ring's bound.
    pub fn capacity(&self) -> (n: usize)
        ensures
            n == self.bound(),
    {
        self.bound
    }

    /// The number of entries held.
    pub fn len(&self) -> (n: usize)
        ensures
            n == self@.len(),
    {
        self.entries.len()
    }

    /// Puts a line at the tail; the oldest entries leave while the ring is
    /// over its bound.
    pub fn append(&mut self, stream: LogStream, text: String)
        ensures
            final(self).bound() == old(self).bound(),
            final(self)@ == keep_latest(
                old(self)@.push(LogEntryView { stream, text: text@ }),
                old(self).bound(),
            ),
            final(self)@.len() <= final(self).bound(),
    {
        let ghost pushed = self@.push(LogEntryView { stream, text: text@ });
        self.entries.push_back(LogEntry { stream, text });
        assert(self@ =~= pushed);
        while self.entries.len() > self.bound
            invariant
                self.bound() == old(self).bound(),
                self@.len() <= pushed.len(),
                self@.len() >= self.bound() || self@.len() == pushed.len(),
                self@ == pushed.skip(pushed.len() - self@.len()),
            decreases self.entries@.len(),
        {
            let ghost before = self@;
            let _ = self.entries.pop_front();
            assert(self@ =~= before.skip(1));
            assert(before.skip(1) =~= pushed.skip(pushed.len() - before.len() + 1));
        }
        assert(self@ =~= keep_latest(pushed, self.bound as nat));
    }

    /// All retained entries in order, each with its stream tag, as one string.
    pub fn snapshot(&self) -> (text: String)
        ensures
            text@ == render_all(self@),
    {
        let mut text = String::new();
        let n = self.entries.len();
        let mut i: usize = 0;
        assert(self@.take(0) =~= Seq::<LogEntryView>::empty());
        while i < n
            invariant
                i <= n,
                n == self.entries@.len(),
                text@ == render_all(self@.take(i as int)),
            decreases n - i,
        {
            let entry = &self.entries[i];
            match entry.stream {
                LogStream::Stdout => text.append("[STDOUT] "),
                LogStream::Stderr => text.append("[STDERR] "),
            }
            text.append(entry.text.as_str());
            proof {
                let next = self@.take(i + 1);
                assert(next.drop_last() =~= self@.take(i as int));
                assert(next.last() == entry@);
                assert(text@ =~= render_all(next.drop_last()) + render_entry(next.last()));
            }
            i += 1;
        }
        assert(self@.take(n as int) =~= self@);
        text
    }
}

/// Appending entries one by one and trimming each time leaves what
/// trimming once at the end would leave.
pub proof fn lemma_append_each_keeps_latest(
    held: Seq<LogEntryView>,
    bound: nat,
    added: Seq<LogEntryView>,
)
    requires
        held.len() <= bound,
    ensures
        append_each(held, bound, added) == keep_latest(held + added, bound),
    decreases added.len(),
{
    if added.len() == 0 {
        assert(held + added =~= held);
    } else {
        let front = added.drop_last();
        lemma_append_each_keeps_latest(held, bound, front);
        assert((held + front).push(added.last()) =~= held + added);
        assert(keep_latest(keep_latest(held + front, bound).push(added.last()), bound)
            =~= keep_latest(held + added, bound));
    }
}

/// After more entries than the bound were appended to an empty ring, the
/// ring holds exactly the last `bound` of them, in the order in which they
/// came.
pub proof fn lemma_overflow_keeps_last_entries(bound: nat, added: Seq<LogEntryView>)
    requires
        added.len() > bound,
    ensures
        append_each(Seq::empty(), bound, added) == added.skip(added.len() - bound),
        append_each(Seq::empty(), bound, added).len() == bound,
        forall|i: int|
            0 <= i < bound ==> append_each(Seq::empty(), bound, added)[i] == added[added.len()
                - bound + i],
{
    lemma_append_each_keeps_latest(Seq::empty(), bound, added);
    assert(Seq::<LogEntryView>::empty() + added =~= added);
}

} // verus!
