//! The journal: one line per entry, written by one thread and read back at startup.

use crossbeam_channel::Sender;
use vstd::prelude::*;
use vstd::string::StringExecFns;

use crate::channel_utils::{send, try_send, SendOutcome};
use crate::clock::Span;
use crate::metrics::{gauge_add, CachePaddedAtomicU64, GlobalMetrics};
use crate::text::{
    ends_with, lines, parse_u64, push_u64, splitn, starts_with, str_eq, trim,
};

verus! {

/// Why the journal could not be read.
#[derive(Debug, Clone, PartialEq)]
pub enum JournalError {
    Io(String),
    Parse(String),
}

impl JournalError {
    pub open spec fn text(self) -> Seq<char> {
        match self {
            JournalError::Io(msg) => "IO error: "@ + msg@,
            JournalError::Parse(msg) => "Parse error: "@ + msg@,
        }
    }

    pub fn to_text(&self) -> (s: String)
        ensures
            s@ == self.text(),
    {
        match self {
            JournalError::Io(msg) => {
                let mut s = "IO error: ".to_owned();
                s.append(msg.as_str());
                s
            },
            JournalError::Parse(msg) => {
                let mut s = "Parse error: ".to_owned();
                s.append(msg.as_str());
                s
            },
        }
    }
}

/// An entry of the journal.
#[derive(Debug, Clone)]
pub enum JournalEntry {
    Tick { symbol: String, timestamp_ns: u64, data: String },
    Intent { symbol: String, timestamp_ns: u64, data: String },
    Fill { symbol: String, timestamp_ns: u64, data: String },
    Order { symbol: String, timestamp_ns: u64, data: String },
    Snapshot { timestamp_ns: u64, data: String },
    Event { event_type: String, timestamp_ns: u64, data: String },
}

/// What an entry holds: its word, the symbol or the kind of event, the time and the data.
#[verifier::ext_equal]
pub struct Record {
    pub word: Seq<char>,
    pub subject: Option<Seq<char>>,
    pub timestamp_ns: u64,
    pub data: Seq<char>,
}

impl View for JournalEntry {
    type V = Record;

    open spec fn view(&self) -> Record {
        match self {
            JournalEntry::Tick { symbol, timestamp_ns, data } => Record {
                word: "TICK"@,
                subject: Some(symbol@),
                timestamp_ns: *timestamp_ns,
                data: data@,
            },
            JournalEntry::Intent { symbol, timestamp_ns, data } => Record {
                word: "INTENT"@,
                subject: Some(symbol@),
                timestamp_ns: *timestamp_ns,
                data: data@,
            },
            JournalEntry::Fill { symbol, timestamp_ns, data } => Record {
                word: "FILL"@,
                subject: Some(symbol@),
                timestamp_ns: *timestamp_ns,
                data: data@,
            },
            JournalEntry::Order { symbol, timestamp_ns, data } => Record {
                word: "ORDER"@,
                subject: Some(symbol@),
                timestamp_ns: *timestamp_ns,
                data: data@,
            },
            JournalEntry::Snapshot { timestamp_ns, data } => Record {
                word: "SNAPSHOT"@,
                subject: None,
                timestamp_ns: *timestamp_ns,
                data: data@,
            },
            JournalEntry::Event { event_type, timestamp_ns, data } => Record {
                word: "EVENT"@,
                subject: Some(event_type@),
                timestamp_ns: *timestamp_ns,
                data: data@,
            },
        }
    }
}

/// The line of an entry: its parts, with bars between them.
pub open spec fn record_line(r: Record) -> Seq<char> {
    match r.subject {
        Some(subject) => r.word + "|"@ + subject + "|"@ + crate::text::decimal(
            r.timestamp_ns as nat,
        ) + "|"@ + r.data,
        None => r.word + "|"@ + crate::text::decimal(r.timestamp_ns as nat) + "|"@ + r.data,
    }
}

fn line_with_subject(word: &str, subject: &str, timestamp_ns: u64, data: &str) -> (s: String)
    ensures
        s@ == record_line(
            (Record { word: word@, subject: Some(subject@), timestamp_ns, data: data@ }),
        ),
{
    let mut s = word.to_owned();
    s.append("|");
    s.append(subject);
    s.append("|");
    push_u64(&mut s, timestamp_ns);
    s.append("|");
    s.append(data);
    s
}

/// The line of an entry.
pub fn format_entry(entry: &JournalEntry) -> (s: String)
    ensures
        s@ == record_line(entry@),
{
    match entry {
        JournalEntry::Tick { symbol, timestamp_ns, data } => line_with_subject(
            "TICK",
            symbol.as_str(),
            *timestamp_ns,
            data.as_str(),
        ),
        JournalEntry::Intent { symbol, timestamp_ns, data } => line_with_subject(
            "INTENT",
            symbol.as_str(),
            *timestamp_ns,
            data.as_str(),
        ),
        JournalEntry::Fill { symbol, timestamp_ns, data } => line_with_subject(
            "FILL",
            symbol.as_str(),
            *timestamp_ns,
            data.as_str(),
        ),
        JournalEntry::Order { symbol, timestamp_ns, data } => line_with_subject(
            "ORDER",
            symbol.as_str(),
            *timestamp_ns,
            data.as_str(),
        ),
        JournalEntry::Snapshot { timestamp_ns, data } => {
            let mut s = "SNAPSHOT".to_owned();
            s.append("|");
            push_u64(&mut s, *timestamp_ns);
            s.append("|");
            s.append(data.as_str());
            s
        },
        JournalEntry::Event { event_type, timestamp_ns, data } => line_with_subject(
            "EVENT",
            event_type.as_str(),
            *timestamp_ns,
            data.as_str(),
        ),
    }
}

/// Whether `word` is that of an entry with a symbol or a kind of event.
pub open spec fn is_subject_word(word: Seq<char>) -> bool {
    word == "TICK"@ || word == "INTENT"@ || word == "FILL"@ || word == "ORDER"@ || word == "EVENT"@
}

/// What a line says, or the message for a line that is not one of the journal. An entry with a
/// subject has four parts; a snapshot has three, and its time and its data are the last of them.
pub open spec fn parsed_line(line: Seq<char>) -> Result<Record, Seq<char>> {
    let parts = crate::text::split_parts(line, 4, '|');
    if parts.len() < 3 {
        Err("Invalid journal line format"@)
    } else {
        match crate::text::parsed_u64(parts[2]) {
            Err(e) => Err("Bad timestamp: "@ + e.text()),
            Ok(t) => if is_subject_word(parts[0]) {
                if parts.len() == 4 {
                    Ok(
                        Record {
                            word: parts[0],
                            subject: Some(parts[1]),
                            timestamp_ns: t as u64,
                            data: parts[3],
                        },
                    )
                } else {
                    Err("Invalid "@ + parts[0] + " entry"@)
                }
            } else if parts[0] == "SNAPSHOT"@ {
                if parts.len() == 3 {
                    Ok(
                        Record {
                            word: parts[0],
                            subject: None,
                            timestamp_ns: t as u64,
                            data: parts[2],
                        },
                    )
                } else {
                    Err("Invalid "@ + parts[0] + " entry"@)
                }
            } else {
                Err("Unknown journal entry type: "@ + parts[0])
            },
        }
    }
}

fn invalid_entry(word: &str) -> (e: JournalError)
    ensures
        e matches JournalError::Parse(m) && m@ == "Invalid "@ + word@ + " entry"@,
{
    let mut s = "Invalid ".to_owned();
    s.append(word);
    s.append(" entry");
    JournalError::Parse(s)
}

/// Reads a line.
pub fn parse_entry_line(line: &str) -> (r: Result<JournalEntry, JournalError>)
    ensures
        match parsed_line(line@) {
            Ok(record) => r matches Ok(e) && e@ == record,
            Err(m) => r matches Err(JournalError::Parse(t)) && t@ == m,
        },
{
    let parts = splitn(line, 4, '|');
    let ghost p = crate::text::split_parts(line@, 4, '|');
    assert(crate::text::views(parts@) == p);
    assert(parts@.len() == p.len());
    if parts.len() < 3 {
        return Err(JournalError::Parse("Invalid journal line format".to_owned()));
    }
    let word = parts[0].as_str();
    assert(word@ == p[0]);
    assert(parts@[1]@ == p[1] && parts@[2]@ == p[2]);
    let timestamp_ns: u64 = match parse_u64(parts[2].as_str()) {
        Ok(t) => t,
        Err(e) => {
            let mut s = "Bad timestamp: ".to_owned();
            s.append(e.message());
            return Err(JournalError::Parse(s));
        },
    };
    proof {
        lemma_words();
        if parts@.len() == 4 {
            assert(parts@[3]@ == p[3]);
        }
    }
    let has_data = parts.len() == 4;
    if str_eq(word, "SNAPSHOT") {
        if parts.len() == 3 {
            return Ok(JournalEntry::Snapshot { timestamp_ns, data: parts[2].clone() });
        }
        return Err(invalid_entry(word));
    }
    let tick = str_eq(word, "TICK");
    let intent = str_eq(word, "INTENT");
    let fill = str_eq(word, "FILL");
    let order = str_eq(word, "ORDER");
    let event = str_eq(word, "EVENT");
    if !(tick || intent || fill || order || event) {
        let mut s = "Unknown journal entry type: ".to_owned();
        s.append(word);
        return Err(JournalError::Parse(s));
    }
    if !has_data {
        return Err(invalid_entry(word));
    }
    proof {
        crate::text::lemma_split_len(line@, 4, '|');
    }
    let symbol = parts[1].clone();
    let data = parts[3].clone();
    Ok(
        if tick {
            JournalEntry::Tick { symbol, timestamp_ns, data }
        } else if intent {
            JournalEntry::Intent { symbol, timestamp_ns, data }
        } else if fill {
            JournalEntry::Fill { symbol, timestamp_ns, data }
        } else if order {
            JournalEntry::Order { symbol, timestamp_ns, data }
        } else {
            JournalEntry::Event { event_type: symbol, timestamp_ns, data }
        },
    )
}

/// The words of the entries differ and hold no bar.
proof fn lemma_words()
    ensures
        "SNAPSHOT"@ != "TICK"@,
        "SNAPSHOT"@ != "INTENT"@,
        "SNAPSHOT"@ != "FILL"@,
        "SNAPSHOT"@ != "ORDER"@,
        "SNAPSHOT"@ != "EVENT"@,
        "TICK"@ != "INTENT"@,
        "TICK"@ != "FILL"@,
        "TICK"@ != "ORDER"@,
        "TICK"@ != "EVENT"@,
        "INTENT"@ != "FILL"@,
        "INTENT"@ != "ORDER"@,
        "INTENT"@ != "EVENT"@,
        "FILL"@ != "ORDER"@,
        "FILL"@ != "EVENT"@,
        "ORDER"@ != "EVENT"@,
        !"TICK"@.contains('|'),
        !"INTENT"@.contains('|'),
        !"FILL"@.contains('|'),
        !"ORDER"@.contains('|'),
        !"EVENT"@.contains('|'),
{
    reveal_strlit("SNAPSHOT");
    reveal_strlit("TICK");
    reveal_strlit("INTENT");
    reveal_strlit("FILL");
    reveal_strlit("ORDER");
    reveal_strlit("EVENT");
    assert("SNAPSHOT"@.len() == 8 && "INTENT"@.len() == 6);
    assert("TICK"@.len() == 4 && "FILL"@.len() == 4 && "ORDER"@.len() == 5 && "EVENT"@.len() == 5);
    assert("TICK"@[0] == 'T' && "FILL"@[0] == 'F' && "ORDER"@[0] == 'O' && "EVENT"@[0] == 'E');
}

/// The entries of a list of lines. Blank lines and lines that are no entries are passed over.
pub open spec fn replayed(ls: Seq<Seq<char>>) -> Seq<Record>
    decreases ls.len(),
{
    if ls.len() == 0 {
        Seq::empty()
    } else {
        let front = replayed(ls.drop_last());
        if crate::text::trimmed(ls.last()).len() == 0 {
            front
        } else {
            match parsed_line(ls.last()) {
                Ok(r) => front.push(r),
                Err(_) => front,
            }
        }
    }
}

/// What a list of entries holds.
pub open spec fn records(v: Seq<JournalEntry>) -> Seq<Record> {
    Seq::new(v.len(), |i: int| v[i]@)
}

/// The entries of a journal file, in the order of their lines.
pub fn replay_text(content: &str) -> (entries: Vec<JournalEntry>)
    ensures
        records(entries@) == replayed(crate::text::text_lines(content@)),
{
    let ls = lines(content);
    let ghost all = crate::text::text_lines(content@);
    let mut entries: Vec<JournalEntry> = Vec::new();
    let mut i: usize = 0;
    assert(all.take(0) =~= Seq::<Seq<char>>::empty());
    assert(records(entries@) =~= replayed(all.take(0)));
    while i < ls.len()
        invariant
            i <= ls@.len(),
            crate::text::views(ls@) == all,
            ls@.len() == all.len(),
            records(entries@) == replayed(all.take(i as int)),
        decreases ls@.len() - i,
    {
        let line = ls[i].as_str();
        let ghost before = entries@;
        assert(line@ == all[i as int]);
        assert(all.take(i + 1).drop_last() =~= all.take(i as int));
        assert(all.take(i + 1).last() == line@);
        if trim(line).as_str().unicode_len() > 0 {
            match parse_entry_line(line) {
                Ok(entry) => {
                    entries.push(entry);
                    assert(records(entries@) =~= records(before).push(entry@));
                },
                Err(_) => {},
            }
        }
        i += 1;
    }
    assert(all.take(all.len() as int) =~= all);
    entries
}

/// Whether a file belongs to the journal.
pub open spec fn is_journal_name(name: Seq<char>) -> bool {
    crate::text::has_prefix(name, "journal_"@) && crate::text::has_suffix(name, ".log"@)
}

/// Whether a file belongs to the journal.
pub fn belongs_to_journal(name: &str) -> (r: bool)
    ensures
        r == is_journal_name(name@),
{
    starts_with(name, "journal_") && ends_with(name, ".log")
}

/// Whether a text has the form of a stamp: a year, then month and day in two digits each, a low
/// line, and the time of day in six digits.
pub open spec fn is_stamp(s: Seq<char>) -> bool {
    let n = s.len();
    &&& n >= 15
    &&& s[n - 7] == '_'
    &&& forall|i: int| n - 6 <= i < n ==> crate::text::is_digit(#[trigger] s[i])
    &&& forall|i: int| n - 11 <= i < n - 7 ==> crate::text::is_digit(#[trigger] s[i])
}

/// The moment of the call in UTC, by `chrono::Utc::now` and its formatting with
/// `%Y%m%d_%H%M%S`. Only the form is claimed: which moment it is rests on the time. On a machine
/// whose clock stands before 1970 `Utc::now` panics, which no argument can rule out.
#[verifier::external_body]
fn utc_stamp() -> (s: String)
    ensures
        is_stamp(s@),
{
    chrono::Utc::now().format("%Y%m%d_%H%M%S").to_string()
}

/// The name of a journal file with a stamp.
pub fn journal_file_name(stamp: &str) -> (name: String)
    ensures
        name@ == "journal_"@ + stamp@ + ".log"@,
        is_journal_name(name@),
{
    let mut name = "journal_".to_owned();
    name.append(stamp);
    name.append(".log");
    proof {
        reveal_strlit("journal_");
        reveal_strlit(".log");
        assert(name@.take("journal_"@.len() as int) =~= "journal_"@);
        assert(name@.skip(name@.len() - ".log"@.len()) =~= ".log"@);
    }
    name
}

/// Whether `stamp` can be that of a moment. Only a look at the machine's clock shows this.
pub closed spec fn stamped(stamp: Seq<char>) -> bool {
    exists|s: String| #[trigger] call_ensures(utc_stamp, (), s) && s@ == stamp
}

/// The name of a journal file that is started now.
pub fn new_journal_name() -> (name: String)
    ensures
        is_journal_name(name@),
        exists|stamp: Seq<char>| #[trigger]
            stamped(stamp) && is_stamp(stamp) && name@ == "journal_"@ + stamp + ".log"@,
{
    let stamp = utc_stamp();
    assert(stamped(stamp@));
    journal_file_name(stamp.as_str())
}

/// What the writing thread is asked for.
#[derive(Debug)]
pub enum JournalCommand {
    Write(JournalEntry),
    /// Write all out and say so.
    Flush { ack: Sender<()> },
    /// Remove old files.
    Compaction,
}

/// What a write that does not wait comes to, for each outcome of the attempt to send it: a sent
/// entry is one more in the channel, a full channel is an error.
pub open spec fn write_settled<T>(
    outcome: SendOutcome<T>,
    before: GlobalMetrics,
    after: GlobalMetrics,
    r: Result<(), &'static str>,
) -> bool {
    match outcome {
        SendOutcome::Sent => {
            &&& r == Ok::<(), &'static str>(())
            &&& after == (GlobalMetrics {
                journal_channel_depth: crate::metrics::wrap_i64(before.journal_channel_depth, 1),
                ..before
            })
        },
        SendOutcome::Full(_) => {
            &&& r == Err::<(), &'static str>("Journal channel full")
            &&& after.errors@ == crate::metrics::wrap_u64(before.errors@, 1)
            &&& after == (GlobalMetrics { errors: after.errors, ..before })
        },
        SendOutcome::Disconnected(_) => {
            &&& r == Err::<(), &'static str>("Journal channel closed")
            &&& after == before
        },
    }
}

/// Settles a write that does not wait.
pub fn settle_write<T>(outcome: SendOutcome<T>, metrics: &mut GlobalMetrics) -> (r: Result<
    (),
    &'static str,
>)
    ensures
        write_settled(outcome, *old(metrics), *final(metrics), r),
{
    gauge_add(&mut metrics.journal_channel_depth, 1);
    match outcome {
        SendOutcome::Sent => Ok(()),
        SendOutcome::Full(_) => {
            gauge_add(&mut metrics.journal_channel_depth, -1);
            metrics.errors.fetch_add(1);
            Err("Journal channel full")
        },
        SendOutcome::Disconnected(_) => {
            gauge_add(&mut metrics.journal_channel_depth, -1);
            Err("Journal channel closed")
        },
    }
}

/// Whether `entry` was tried on `tx` without waiting, and this came to `r`.
pub open spec fn write_tried(
    tx: &Sender<JournalCommand>,
    entry: JournalEntry,
    before: GlobalMetrics,
    after: GlobalMetrics,
    r: Result<(), &'static str>,
) -> bool {
    exists|outcome: SendOutcome<JournalCommand>| #[trigger]
        crate::channel_utils::tried(tx, JournalCommand::Write(entry), outcome) && write_settled(
            outcome,
            before,
            after,
            r,
        )
}

/// Writes to the journal without waiting, for use from other threads.
pub struct JournalHandle {
    pub tx: Sender<JournalCommand>,
}

impl JournalHandle {
    /// Hands an entry to the writing thread without waiting; an entry that finds the channel
    /// full is dropped.
    pub fn try_write(&self, entry: JournalEntry, metrics: &mut GlobalMetrics) -> (r: Result<
        (),
        &'static str,
    >)
        ensures
            write_tried(&self.tx, entry, *old(metrics), *final(metrics), r),
    {
        let outcome = try_send(&self.tx, JournalCommand::Write(entry));
        proof {
            crate::channel_utils::lemma_tried(&self.tx, JournalCommand::Write(entry), outcome);
        }
        settle_write(outcome, metrics)
    }
}

/// The side of the journal that hands entries to the writing thread.
pub struct JournalWriter {
    pub tx: Sender<JournalCommand>,
}

impl JournalWriter {
    /// A handle for another thread.
    pub fn handle(&self) -> (h: JournalHandle)
        ensures
            cloned(self.tx, h.tx),
    {
        JournalHandle { tx: self.tx.clone() }
    }

    /// Hands an entry to the writing thread, waiting for room. The entry is counted as one more in
    /// the channel also where no thread is left to write it.
    pub fn write(&self, entry: JournalEntry, metrics: &mut GlobalMetrics) -> (r: Result<
        (),
        &'static str,
    >)
        ensures
            r matches Err(m) ==> m == "Journal channel closed",
            exists|sent: Result<(), JournalCommand>|
                {
                    &&& #[trigger] crate::channel_utils::handed(
                        &self.tx,
                        JournalCommand::Write(entry),
                        sent,
                    )
                    &&& r is Ok == sent is Ok
                },
            *final(metrics) == (GlobalMetrics {
                journal_channel_depth: crate::metrics::wrap_i64(
                    old(metrics).journal_channel_depth,
                    1,
                ),
                ..*old(metrics)
            }),
    {
        gauge_add(&mut metrics.journal_channel_depth, 1);
        let sent = send(&self.tx, JournalCommand::Write(entry));
        proof {
            crate::channel_utils::lemma_handed(&self.tx, JournalCommand::Write(entry), sent);
        }
        match sent {
            Ok(()) => Ok(()),
            Err(_) => Err("Journal channel closed"),
        }
    }

    /// Hands an entry to the writing thread without waiting; an entry that finds the channel
    /// full is dropped.
    pub fn try_write(&self, entry: JournalEntry, metrics: &mut GlobalMetrics) -> (r: Result<
        (),
        &'static str,
    >)
        ensures
            write_tried(&self.tx, entry, *old(metrics), *final(metrics), r),
    {
        let outcome = try_send(&self.tx, JournalCommand::Write(entry));
        proof {
            crate::channel_utils::lemma_tried(&self.tx, JournalCommand::Write(entry), outcome);
        }
        settle_write(outcome, metrics)
    }

    /// Asks for the removal of old files.
    pub fn trigger_compaction(&self)
        ensures
            exists|sent: Result<(), JournalCommand>| #[trigger]
                crate::channel_utils::handed(&self.tx, JournalCommand::Compaction, sent),
    {
        let sent = send(&self.tx, JournalCommand::Compaction);
        proof {
            crate::channel_utils::lemma_handed(&self.tx, JournalCommand::Compaction, sent);
        }
    }
}

/// How a request to write all out went.
pub enum FlushReply {
    /// The writing thread is gone.
    Closed,
    /// Whether it answered in time, and after how many nanoseconds.
    Waited { answered: bool, elapsed_ns: u64 },
}

/// Settles a request to write all out: it was one more in the channel, and the wait for the
/// answer is recorded.
pub fn settle_flush(reply: FlushReply, metrics: &mut GlobalMetrics) -> (r: Result<(), &'static str>)
    ensures
        r == (match reply {
            FlushReply::Closed => Err::<(), &'static str>("Journal channel closed"),
            FlushReply::Waited { answered, .. } => if answered {
                Ok(())
            } else {
                Err("Flush timeout")
            },
        }),
        final(metrics).journal_channel_depth == crate::metrics::wrap_i64(
            old(metrics).journal_channel_depth,
            1,
        ),
        final(metrics).journal_flush_latency@ == (match reply {
            FlushReply::Closed => old(metrics).journal_flush_latency@,
            FlushReply::Waited { elapsed_ns, .. } => crate::metrics::histogram_recorded(
                old(metrics).journal_flush_latency@,
                elapsed_ns,
            ),
        }),
        *final(metrics) == (GlobalMetrics {
            journal_channel_depth: final(metrics).journal_channel_depth,
            journal_flush_latency: final(metrics).journal_flush_latency,
            ..*old(metrics)
        }),
{
    gauge_add(&mut metrics.journal_channel_depth, 1);
    match reply {
        FlushReply::Closed => Err("Journal channel closed"),
        FlushReply::Waited { answered, elapsed_ns } => {
            metrics.journal_flush_latency.record(elapsed_ns);
            if answered {
                Ok(())
            } else {
                Err("Flush timeout")
            }
        },
    }
}

/// How often old files are looked for.
pub const COMPACTION_CHECK_SECS: u64 = 3600;

/// What the writing thread does next.
#[derive(Debug, Clone, Copy, PartialEq, Eq, Structural)]
pub struct JournalWork {
    pub flush: bool,
    pub compact: bool,
}

/// The writing thread's counts.
pub struct JournalCounter {
    pub write_count: CachePaddedAtomicU64,
}

impl JournalCounter {
    pub fn new() -> (c: Self)
        ensures
            c.write_count@ == 0,
    {
        JournalCounter { write_count: CachePaddedAtomicU64::new(0) }
    }

    pub fn write_count(&self) -> (n: u64)
        ensures
            n == self.write_count@,
    {
        self.write_count.load()
    }

    /// Counts an entry that left the channel, written or not, and tells whether to write all out.
    pub fn after_write(
        &mut self,
        written: bool,
        since_flush: &Span,
        flush_interval: &Span,
        metrics: &mut GlobalMetrics,
    ) -> (r: JournalWork)
        ensures
            r == (JournalWork {
                flush: since_flush.ns() >= flush_interval.ns(),
                compact: false,
            }),
            final(self).write_count@ == (if written {
                crate::metrics::wrap_u64(old(self).write_count@, 1)
            } else {
                old(self).write_count@
            }),
            final(metrics).journal_channel_depth == crate::metrics::wrap_i64(
                old(metrics).journal_channel_depth,
                -1i64,
            ),
            final(metrics).journal_writes@ == (if written {
                crate::metrics::wrap_u64(old(metrics).journal_writes@, 1)
            } else {
                old(metrics).journal_writes@
            }),
            final(metrics).errors@ == (if written {
                old(metrics).errors@
            } else {
                crate::metrics::wrap_u64(old(metrics).errors@, 1)
            }),
            *final(metrics) == (GlobalMetrics {
                journal_channel_depth: final(metrics).journal_channel_depth,
                journal_writes: final(metrics).journal_writes,
                errors: final(metrics).errors,
                ..*old(metrics)
            }),
    {
        gauge_add(&mut metrics.journal_channel_depth, -1);
        if written {
            self.write_count.fetch_add(1);
            metrics.journal_writes.fetch_add(1);
        } else {
            metrics.errors.fetch_add(1);
        }
        JournalWork { flush: since_flush.at_least(flush_interval), compact: false }
    }

    /// Counts a request to write all out that left the channel.
    pub fn after_flush(&self, metrics: &mut GlobalMetrics)
        ensures
            *final(metrics) == (GlobalMetrics {
                journal_channel_depth: crate::metrics::wrap_i64(
                    old(metrics).journal_channel_depth,
                    -1i64,
                ),
                ..*old(metrics)
            }),
    {
        gauge_add(&mut metrics.journal_channel_depth, -1);
    }

    /// What to do when nothing came in for a while.
    pub fn when_idle(
        &self,
        since_flush: &Span,
        flush_interval: &Span,
        since_compaction: &Span,
    ) -> (r: JournalWork)
        ensures
            r.compact == (since_compaction.ns() >= COMPACTION_CHECK_SECS * 1_000_000_000),
            r.flush == (since_flush.ns() >= flush_interval.ns() || r.compact),
    {
        let compact = since_compaction.at_least(&Span::from_secs(COMPACTION_CHECK_SECS));
        JournalWork { flush: since_flush.at_least(flush_interval) || compact, compact }
    }
}

/// The removal of old files, oldest first.
pub struct Compaction {
    /// Files that were last changed before this second are removed.
    pub cutoff: u64,
    /// The bytes that the files may take.
    pub max_bytes: u64,
    /// The bytes that the files take.
    pub total_size: u64,
}

impl Compaction {
    /// A removal at a moment, of files with `total_size` bytes.
    pub fn new(now_ns: u64, retention_hours: u32, max_size_mb: u64, total_size: u64) -> (c: Self)
        requires
            max_size_mb * 1024 * 1024 <= u64::MAX,
        ensures
            c.cutoff == (if now_ns / 1_000_000_000 >= retention_hours * 3600 {
                now_ns / 1_000_000_000 - retention_hours * 3600
            } else {
                0
            }),
            c.max_bytes == max_size_mb * 1024 * 1024,
            c.total_size == total_size,
    {
        let now: u64 = now_ns / 1_000_000_000;
        let retention_secs: u64 = retention_hours as u64 * 3600;
        Compaction {
            cutoff: now.saturating_sub(retention_secs),
            max_bytes: max_size_mb * 1024 * 1024,
            total_size,
        }
    }

    /// Whether the next file is removed: it is too old, or the files take too much.
    pub open spec fn removes(&self, modified: u64) -> bool {
        modified < self.cutoff || self.total_size > self.max_bytes
    }

    /// Whether the next file is removed.
    pub fn wants_removal(&self, modified: u64) -> (r: bool)
        ensures
            r == self.removes(modified),
    {
        modified < self.cutoff || self.total_size > self.max_bytes
    }

    /// Notes a file that was removed, and the bytes that it took, where they are known.
    pub fn removed(&mut self, size: Option<u64>)
        ensures
            *final(self) == (Compaction {
                total_size: match size {
                    Some(len) => if old(self).total_size >= len {
                        (old(self).total_size - len) as u64
                    } else {
                        0
                    },
                    None => old(self).total_size,
                },
                ..*old(self)
            }),
    {
        match size {
            Some(len) => {
                self.total_size = self.total_size.saturating_sub(len);
            },
            None => {},
        }
    }

    /// Whether to look at the file after one that was changed at `modified`.
    pub fn goes_on(&self, modified: u64) -> (r: bool)
        ensures
            r == self.removes(modified),
    {
        self.wants_removal(modified)
    }
}

/// The bytes of a list of files.
pub open spec fn total(sizes: Seq<u64>) -> int
    decreases sizes.len(),
{
    if sizes.len() == 0 {
        0
    } else {
        total(sizes.drop_last()) + sizes.last()
    }
}

/// The bytes of a list of files.
pub fn total_size(sizes: &Vec<u64>) -> (n: u64)
    requires
        total(sizes@) <= u64::MAX,
    ensures
        n == total(sizes@),
{
    let mut n: u64 = 0;
    let mut i: usize = 0;
    while i < sizes.len()
        invariant
            i <= sizes@.len(),
            n == total(sizes@.take(i as int)),
            total(sizes@) <= u64::MAX,
        decreases sizes@.len() - i,
    {
        proof {
            assert(sizes@.take(i + 1).drop_last() =~= sizes@.take(i as int));
            lemma_total_grows(sizes@, i + 1);
        }
        n = n + sizes[i];
        i += 1;
    }
    assert(sizes@.take(sizes@.len() as int) =~= sizes@);
    n
}

proof fn lemma_total_grows(s: Seq<u64>, i: int)
    requires
        0 <= i <= s.len(),
    ensures
        total(s.take(i)) <= total(s),
    decreases s.len() - i,
{
    if i == s.len() {
        assert(s.take(i) =~= s);
    } else {
        assert(s.take(i + 1).drop_last() =~= s.take(i));
        lemma_total_grows(s, i + 1);
    }
}

/// Whether a record reads back from its line: it has a subject without a bar.
pub open spec fn parses_back(r: Record) -> bool {
    is_subject_word(r.word) && (r.subject matches Some(s) && !s.contains('|'))
}

/// Whether a record reads back from a file: from its line, and neither the subject nor the data
/// breaks the line.
pub open spec fn reads_back(r: Record) -> bool {
    &&& parses_back(r)
    &&& !(r.subject->0).contains('\n')
    &&& !r.data.contains('\n')
    &&& r.data.len() > 0 ==> r.data.last() != '\r'
}

proof fn lemma_decimal_chars(n: nat)
    ensures
        !crate::text::decimal(n).contains('|'),
        !crate::text::decimal(n).contains('\n'),
{
    crate::text::lemma_decimal_digits(n);
    let d = crate::text::decimal(n);
    if d.contains('|') {
        let i = d.index_of('|');
        assert(crate::text::is_digit(d[i]));
    }
    if d.contains('\n') {
        let i = d.index_of('\n');
        assert(crate::text::is_digit(d[i]));
    }
}

/// An entry with a subject without a bar reads back from its line as it was.
pub proof fn law_entry_reads_back(r: Record)
    requires
        parses_back(r),
    ensures
        parsed_line(record_line(r)) == Ok::<Record, Seq<char>>(r),
{
    let s = r.subject->0;
    let d = crate::text::decimal(r.timestamp_ns as nat);
    let line = record_line(r);
    lemma_words();
    lemma_decimal_chars(r.timestamp_ns as nat);
    crate::text::law_parse_of_decimal(r.timestamp_ns as nat);
    reveal_strlit("|");
    let tail2 = d.push('|') + r.data;
    let tail1 = s.push('|') + tail2;
    assert(line =~= r.word.push('|') + tail1);
    crate::text::lemma_split_first(r.word, tail1, 4, '|');
    crate::text::lemma_split_first(s, tail2, 3, '|');
    crate::text::lemma_split_first(d, r.data, 2, '|');
    assert(crate::text::split_parts(r.data, 1, '|') == seq![r.data]);
    assert(crate::text::split_parts(line, 4, '|') =~= seq![r.word, s, d, r.data]);
}

/// The text of a journal file with one line for each entry.
pub open spec fn journal_text(entries: Seq<Record>) -> Seq<char>
    decreases entries.len(),
{
    if entries.len() == 0 {
        Seq::empty()
    } else {
        record_line(entries[0]).push('\n') + journal_text(entries.skip(1))
    }
}

proof fn lemma_journal_lines(entries: Seq<Record>)
    requires
        forall|i: int| 0 <= i < entries.len() ==> reads_back(#[trigger] entries[i]),
    ensures
        crate::text::text_lines(journal_text(entries)) == entries.map_values(
            |r: Record| record_line(r),
        ),
    decreases entries.len(),
{
    let f = |r: Record| record_line(r);
    if entries.len() == 0 {
        assert(entries.map_values(f) =~= Seq::<Seq<char>>::empty());
    } else {
        let r = entries[0];
        let rest = entries.skip(1);
        assert forall|i: int| 0 <= i < rest.len() implies reads_back(#[trigger] rest[i]) by {
            assert(rest[i] == entries[i + 1]);
        }
        lemma_journal_lines(rest);
        lemma_line_shape(r);
        crate::text::lemma_first_line(record_line(r), journal_text(rest));
        assert(entries.map_values(f) =~= seq![record_line(r)] + rest.map_values(f));
    }
}

proof fn lemma_line_shape(r: Record)
    requires
        reads_back(r),
    ensures
        record_line(r).len() > 0,
        !record_line(r).contains('\n'),
        record_line(r).last() != '\r',
        crate::text::trimmed(record_line(r)).len() > 0,
{
    let s = r.subject->0;
    let d = crate::text::decimal(r.timestamp_ns as nat);
    let line = record_line(r);
    lemma_decimal_chars(r.timestamp_ns as nat);
    reveal_strlit("|");
    reveal_strlit("TICK");
    reveal_strlit("INTENT");
    reveal_strlit("FILL");
    reveal_strlit("ORDER");
    reveal_strlit("EVENT");
    let w = r.word.len() as int;
    assert(!r.word.contains('\n'));
    let a = w + 1 + s.len();
    let b = a + 1 + d.len();
    assert(line.len() == b + 1 + r.data.len());
    assert(line[b] == '|');
    assert(line.last() != '\r') by {
        if r.data.len() > 0 {
            assert(line.last() == r.data.last());
        }
    }
    assert(!line.contains('\n')) by {
        if line.contains('\n') {
            let i = line.index_of('\n');
            assert(line[i] == '\n');
            if i < w {
                assert(r.word[i] == '\n');
            } else if w < i < a {
                assert(s[i - w - 1] == '\n');
            } else if a < i < b {
                assert(d[i - a - 1] == '\n');
            } else if i > b {
                assert(r.data[i - b - 1] == '\n');
            }
        }
    }
    let first = line[0];
    assert(first == r.word[0]);
    assert(!crate::text::is_white_space(first));
    lemma_trimmed_keeps(line);
}

/// A text that starts with a character other than white space is not blank.
proof fn lemma_trimmed_keeps(s: Seq<char>)
    requires
        s.len() > 0,
        !crate::text::is_white_space(s[0]),
    ensures
        crate::text::trimmed(s).len() > 0,
{
    lemma_trimmed_end_keeps(s);
    assert(crate::text::trimmed_start(s) == s);
    assert(crate::text::trimmed_start(crate::text::trimmed_end(s)) == crate::text::trimmed_end(s));
}

proof fn lemma_trimmed_end_keeps(s: Seq<char>)
    requires
        s.len() > 0,
        !crate::text::is_white_space(s[0]),
    ensures
        crate::text::trimmed_end(s).len() > 0,
        crate::text::trimmed_end(s)[0] == s[0],
    decreases s.len(),
{
    if crate::text::is_white_space(s.last()) {
        lemma_trimmed_end_keeps(s.drop_last());
    }
}

/// A journal file with one line for each of a list of entries with subjects reads back as those
/// entries, in that order.
pub proof fn law_journal_reads_back(entries: Seq<Record>)
    requires
        forall|i: int| 0 <= i < entries.len() ==> reads_back(#[trigger] entries[i]),
    ensures
        replayed(crate::text::text_lines(journal_text(entries))) == entries,
{
    lemma_journal_lines(entries);
    lemma_replayed(entries);
}

proof fn lemma_replayed(entries: Seq<Record>)
    requires
        forall|i: int| 0 <= i < entries.len() ==> reads_back(#[trigger] entries[i]),
    ensures
        replayed(entries.map_values(|r: Record| record_line(r))) == entries,
    decreases entries.len(),
{
    let f = |r: Record| record_line(r);
    let ls = entries.map_values(f);
    if entries.len() == 0 {
        assert(replayed(ls) =~= entries);
    } else {
        let front = entries.drop_last();
        assert forall|i: int| 0 <= i < front.len() implies reads_back(#[trigger] front[i]) by {
            assert(front[i] == entries[i]);
        }
        lemma_replayed(front);
        assert(ls.drop_last() =~= front.map_values(f));
        assert(reads_back(entries[entries.len() - 1]));
        law_entry_reads_back(entries.last());
        lemma_line_shape(entries.last());
        assert(ls.last() == record_line(entries.last()));
        assert(front.push(entries.last()) =~= entries);
    }
}

/// How an entry is written: the word of its kind, what it is about, its time in nanoseconds and its
/// data, with bars between them. A snapshot is about nothing in particular.
pub proof fn law_entries_are_written_by_their_kind(
    subject: String,
    timestamp_ns: u64,
    data: String,
    e: JournalEntry,
    line: String,
)
    requires
        call_ensures(format_entry, (&e,), line),
    ensures
        ({
            let tail = "|"@ + subject@ + "|"@ + crate::text::decimal(timestamp_ns as nat) + "|"@
                + data@;
            &&& e == (JournalEntry::Tick { symbol: subject, timestamp_ns, data }) ==> line@
                == "TICK"@ + tail
            &&& e == (JournalEntry::Intent { symbol: subject, timestamp_ns, data }) ==> line@
                == "INTENT"@ + tail
            &&& e == (JournalEntry::Fill { symbol: subject, timestamp_ns, data }) ==> line@
                == "FILL"@ + tail
            &&& e == (JournalEntry::Order { symbol: subject, timestamp_ns, data }) ==> line@
                == "ORDER"@ + tail
            &&& e == (JournalEntry::Event { event_type: subject, timestamp_ns, data }) ==> line@
                == "EVENT"@ + tail
            &&& e == (JournalEntry::Snapshot { timestamp_ns, data }) ==> line@ == "SNAPSHOT"@
                + ("|"@ + crate::text::decimal(timestamp_ns as nat) + "|"@ + data@)
        }),
{
    let t = crate::text::decimal(timestamp_ns as nat);
    let tail = "|"@ + subject@ + "|"@ + t + "|"@ + data@;
    assert("TICK"@ + tail =~= "TICK"@ + "|"@ + subject@ + "|"@ + t + "|"@ + data@);
    assert("INTENT"@ + tail =~= "INTENT"@ + "|"@ + subject@ + "|"@ + t + "|"@ + data@);
    assert("FILL"@ + tail =~= "FILL"@ + "|"@ + subject@ + "|"@ + t + "|"@ + data@);
    assert("ORDER"@ + tail =~= "ORDER"@ + "|"@ + subject@ + "|"@ + t + "|"@ + data@);
    assert("EVENT"@ + tail =~= "EVENT"@ + "|"@ + subject@ + "|"@ + t + "|"@ + data@);
    assert("SNAPSHOT"@ + ("|"@ + t + "|"@ + data@) =~= "SNAPSHOT"@ + "|"@ + t + "|"@ + data@);
}

/// A journal is read line by line: an entry that was written is read as that entry, behind those
/// before it, and a line of white space or one that is no entry is passed over.
pub proof fn law_lines_are_replayed_in_turn(lines: Seq<Seq<char>>, line: Seq<char>, r: Record)
    requires
        is_subject_word(r.word),
        r.subject is Some,
        !r.subject->0.contains('|'),
    ensures
        replayed(Seq::empty()) == Seq::<Record>::empty(),
        crate::text::trimmed(record_line(r)).len() > 0 ==> replayed(lines.push(record_line(r)))
            == replayed(lines).push(r),
        crate::text::trimmed(line).len() == 0 || parsed_line(line) is Err ==> replayed(
            lines.push(line),
        ) == replayed(lines),
{
    law_entry_reads_back(r);
    assert(lines.push(record_line(r)).drop_last() =~= lines);
    assert(lines.push(line).drop_last() =~= lines);
}

/// A line is an entry only where it has the parts of one: three at least, of which the third is a
/// time, and a word that is known.
pub proof fn law_malformed_lines_are_refused(line: Seq<char>)
    ensures
        ({
            let parts = crate::text::split_parts(line, 4, '|');
            &&& parts.len() < 3 ==> parsed_line(line) is Err
            &&& parts.len() >= 3 && crate::text::parsed_u64(parts[2]) is Err ==> parsed_line(line)
                is Err
            &&& parts.len() == 3 && (parts[0] == "TICK"@ || parts[0] == "INTENT"@ || parts[0]
                == "FILL"@ || parts[0] == "ORDER"@ || parts[0] == "EVENT"@) ==> parsed_line(line)
                is Err
            &&& parsed_line(line) is Ok ==> (parts[0] == "TICK"@ || parts[0] == "INTENT"@
                || parts[0] == "FILL"@ || parts[0] == "ORDER"@ || parts[0] == "EVENT"@ || parts[0]
                == "SNAPSHOT"@) && parsed_line(line)->Ok_0.word == parts[0]
        }),
{
}

/// The files of the journal are those whose names begin with `journal_` and end with `.log`.
pub proof fn law_journal_files_have_their_names(name: Seq<char>)
    ensures
        is_journal_name(name) ==> name.len() >= 8 && name.take(8) == "journal_"@ && name.len() >= 4
            && name.skip(name.len() - 4) == ".log"@,
        name.len() >= 8 && name.take(8) == "journal_"@ && name.skip(name.len() - 4) == ".log"@
            ==> is_journal_name(name),
{
    reveal_strlit("journal_");
    reveal_strlit(".log");
}

/// What an attempt to write comes to: an entry that was taken is one more on its way; one that found
/// the channel full is an error and is counted as one; and where nobody writes, it is an error.
pub proof fn law_write_is_settled_by_its_outcome<T>(
    outcome: SendOutcome<T>,
    before: GlobalMetrics,
    after: GlobalMetrics,
    r: Result<(), &'static str>,
)
    requires
        write_settled(outcome, before, after, r),
    ensures
        r is Ok <==> outcome is Sent,
        outcome is Full ==> r == Err::<(), _>("Journal channel full"),
        outcome is Disconnected ==> r == Err::<(), _>("Journal channel closed") && after == before,
        outcome is Sent && before.journal_channel_depth < i64::MAX ==> after.journal_channel_depth
            == before.journal_channel_depth + 1,
        !(outcome is Sent) ==> after.journal_channel_depth == before.journal_channel_depth,
        outcome is Full && before.errors@ < u64::MAX ==> after.errors@ == before.errors@ + 1,
        !(outcome is Full) ==> after.errors@ == before.errors@,
{
}

/// A file goes just where it was last changed before the time that files are kept for, or where the
/// files take more than they may; the age counts in hours and the room in mebibytes.
pub proof fn law_old_or_large_files_go(
    now_ns: u64,
    retention_hours: u32,
    max_size_mb: u64,
    total_size: u64,
    modified: u64,
    c: Compaction,
    r: bool,
)
    requires
        call_ensures(Compaction::new, (now_ns, retention_hours, max_size_mb, total_size), c),
        call_ensures(Compaction::wants_removal, (&c, modified), r),
    ensures
        r <==> modified + retention_hours * 3600 < now_ns / 1_000_000_000 || total_size > max_size_mb
            * 1048576,
{
}

/// The bytes of files add up, file by file.
pub proof fn law_sizes_add_up(sizes: Seq<u64>, size: u64)
    ensures
        total(Seq::empty()) == 0,
        total(sizes.push(size)) == total(sizes) + size,
{
    assert(sizes.push(size).drop_last() =~= sizes);
}

/// A request to write all out succeeds just where the answer came in time. The request is one more
/// in the channel in any case, and a wait for the answer is recorded with its length.
pub proof fn law_flush_is_settled_by_its_answer()
    ensures
        forall|reply: FlushReply, m: &mut GlobalMetrics, r: Result<(), &'static str>|
            #![trigger call_ensures(settle_flush, (reply, m), r)]
            call_ensures(settle_flush, (reply, m), r) ==> {
                &&& r is Ok <==> reply is Waited && reply->answered
                &&& reply is Closed ==> r == Err::<(), &'static str>("Journal channel closed")
                &&& reply is Waited && !reply->answered ==> r == Err::<(), &'static str>(
                    "Flush timeout",
                )
                &&& m.journal_channel_depth < i64::MAX ==> final(m).journal_channel_depth
                    == m.journal_channel_depth + 1
                &&& reply is Closed ==> final(m).journal_flush_latency@ == m.journal_flush_latency@
                &&& reply is Waited ==> final(m).journal_flush_latency@
                    == crate::metrics::histogram_recorded(
                    m.journal_flush_latency@,
                    reply->elapsed_ns,
                )
                &&& final(m).journal_writes == m.journal_writes
            },
{
}

/// An entry that was written counts as a write and one that was not as an error; both leave the
/// channel. All is written out once the time for it has come.
pub proof fn law_writes_are_counted()
    ensures
        forall|
            c: &mut JournalCounter,
            written: bool,
            since: &Span,
            every: &Span,
            m: &mut GlobalMetrics,
            r: JournalWork,
        |
            #![trigger call_ensures(JournalCounter::after_write, (c, written, since, every, m), r)]
            call_ensures(JournalCounter::after_write, (c, written, since, every, m), r) ==> {
                &&& written ==> final(c).write_count@ == (c.write_count@ + 1)
                    % 0x1_0000_0000_0000_0000 && final(m).journal_writes@ == (m.journal_writes@ + 1)
                    % 0x1_0000_0000_0000_0000 && final(m).errors@ == m.errors@
                &&& !written ==> final(c).write_count@ == c.write_count@
                    && final(m).journal_writes@ == m.journal_writes@ && final(m).errors@ == (
                m.errors@ + 1) % 0x1_0000_0000_0000_0000
                &&& m.journal_channel_depth > i64::MIN ==> final(m).journal_channel_depth
                    == m.journal_channel_depth - 1
                &&& r.flush <==> since.ns() >= every.ns()
                &&& !r.compact
            },
        forall|c: &JournalCounter, m: &mut GlobalMetrics, u: ()|
            #![trigger call_ensures(JournalCounter::after_flush, (c, m), u)]
            call_ensures(JournalCounter::after_flush, (c, m), u) ==> {
                &&& m.journal_channel_depth > i64::MIN ==> final(m).journal_channel_depth
                    == m.journal_channel_depth - 1
                &&& final(m).journal_writes == m.journal_writes && final(m).errors == m.errors
            },
{
}

/// In a pause old files are looked for once an hour, after all was written out; else all is written
/// out once the time for it has come.
pub proof fn law_pauses_are_used(
    c: &JournalCounter,
    since: &Span,
    every: &Span,
    looked: &Span,
    r: JournalWork,
)
    requires
        call_ensures(JournalCounter::when_idle, (c, since, every, looked), r),
    ensures
        r.compact <==> looked.ns() >= 3600 * 1_000_000_000,
        r.compact ==> r.flush,
        !r.compact ==> (r.flush <==> since.ns() >= every.ns()),
{
}

/// A file that was removed takes its size from the sum, and one of unknown size takes nothing.
pub proof fn law_removed_file_frees_its_size()
    ensures
        forall|c: &mut Compaction, size: Option<u64>, u: ()|
            #![trigger call_ensures(Compaction::removed, (c, size), u)]
            call_ensures(Compaction::removed, (c, size), u) ==> {
                &&& size is None ==> *final(c) == *c
                &&& size matches Some(n) ==> (n <= c.total_size ==> final(c).total_size
                    == c.total_size - n) && (n > c.total_size ==> final(c).total_size == 0)
            },
{
}

/// An entry that is handed to the writing thread is the one that was given, and it fails only where
/// that thread is gone.
pub proof fn law_entry_is_handed_on_as_given()
    ensures
        forall|w: &JournalWriter, e: JournalEntry, m: &mut GlobalMetrics, r: Result<(), &'static str>|
            #![trigger call_ensures(JournalWriter::write, (w, e, m), r)]
            call_ensures(JournalWriter::write, (w, e, m), r) ==> {
                &&& exists|sent: Result<(), JournalCommand>| #[trigger]
                    crate::channel_utils::handed(&w.tx, JournalCommand::Write(e), sent) && (r is Ok
                        <==> sent is Ok)
                &&& r is Err ==> r == Err::<(), &'static str>("Journal channel closed")
                &&& m.journal_channel_depth < i64::MAX ==> final(m).journal_channel_depth
                    == m.journal_channel_depth + 1
                &&& final(m).dropped_intents == m.dropped_intents
            },
{
}

} // verus!
