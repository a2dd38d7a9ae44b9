//! Server log lines: level detection, parsing and the bounded in-memory
//! buffer of recent lines.
use vstd::prelude::*;
use crate::clock::{utc_now, Timestamp};
use crate::text::{chars_of, contains, has_substring, trim, trimmed};

verus! {

broadcast use vstd::string::group_string_axioms;

/// Severity of a log line.
#[derive(Clone, Copy, Debug, PartialEq, Eq, Structural)]
pub enum LogLevel {
    Info,
    Warn,
    Error,
    Debug,
    Unknown,
}

/// A parsed log line.
#[derive(Debug)]
pub struct LogLine {
    pub timestamp: Timestamp,
    pub level: LogLevel,
    /// The line with surrounding whitespace removed.
    pub message: String,
    /// The line as received.
    pub raw: String,
}

impl LogLine {
    /// A copy of the line.
    pub fn duplicate(&self) -> (r: Self)
        ensures
            r == *self,
    {
        LogLine {
            timestamp: self.timestamp,
            level: self.level,
            message: self.message.clone(),
            raw: self.raw.clone(),
        }
    }
}

/// Upper-case form of a string under Unicode case mapping (`str::to_uppercase`).
pub uninterp spec fn unicode_uppercase(s: Seq<char>) -> Seq<char>;

/// `str::to_uppercase`. The mapping is Unicode's and is named, not spelled out.
#[verifier::external_body]
fn to_uppercase(s: &str) -> (r: String)
    ensures
        r@ == unicode_uppercase(s@),
{
    s.to_uppercase()
}

/// The level a line announces, looking for markers in its upper-case form:
/// errors first, then warnings, debug and info.
pub open spec fn level_of(raw: Seq<char>) -> LogLevel {
    let u = unicode_uppercase(raw);
    if contains(u, "[ERROR]"@) || contains(u, "ERROR:"@) {
        LogLevel::Error
    } else if contains(u, "[WARN]"@) || contains(u, "WARNING:"@) || contains(u, "WARN:"@) {
        LogLevel::Warn
    } else if contains(u, "[DEBUG]"@) || contains(u, "DEBUG:"@) {
        LogLevel::Debug
    } else if contains(u, "[INFO]"@) || contains(u, "INFO:"@) {
        LogLevel::Info
    } else {
        LogLevel::Unknown
    }
}

/// The line carries an error marker in its upper-case form.
pub open spec fn has_error_marker(u: Seq<char>) -> bool {
    contains(u, "[ERROR]"@) || contains(u, "ERROR:"@)
}

/// The line carries a warning marker in its upper-case form.
pub open spec fn has_warn_marker(u: Seq<char>) -> bool {
    contains(u, "[WARN]"@) || contains(u, "WARNING:"@) || contains(u, "WARN:"@)
}

/// The line carries a debug marker in its upper-case form.
pub open spec fn has_debug_marker(u: Seq<char>) -> bool {
    contains(u, "[DEBUG]"@) || contains(u, "DEBUG:"@)
}

/// The line carries an info marker in its upper-case form.
pub open spec fn has_info_marker(u: Seq<char>) -> bool {
    contains(u, "[INFO]"@) || contains(u, "INFO:"@)
}

/// Each marker found in a line's upper-case form decides its level, the
/// more severe taking precedence: `[ERROR]` or `ERROR:` make an error;
/// otherwise `[WARN]`, `WARNING:` or `WARN:` a warning; otherwise `[DEBUG]`
/// or `DEBUG:` a debug line; otherwise `[INFO]` or `INFO:` an info line; a
/// line with none of them has no known level.
pub proof fn law_markers_decide_level(raw: Seq<char>)
    ensures
        ({
            let u = unicode_uppercase(raw);
            &&& contains(u, "[ERROR]"@) ==> level_of(raw) == LogLevel::Error
            &&& contains(u, "ERROR:"@) ==> level_of(raw) == LogLevel::Error
            &&& !has_error_marker(u) && contains(u, "[WARN]"@) ==> level_of(raw) == LogLevel::Warn
            &&& !has_error_marker(u) && contains(u, "WARNING:"@) ==> level_of(raw)
                == LogLevel::Warn
            &&& !has_error_marker(u) && contains(u, "WARN:"@) ==> level_of(raw) == LogLevel::Warn
            &&& !has_error_marker(u) && !has_warn_marker(u) && contains(u, "[DEBUG]"@)
                ==> level_of(raw) == LogLevel::Debug
            &&& !has_error_marker(u) && !has_warn_marker(u) && contains(u, "DEBUG:"@)
                ==> level_of(raw) == LogLevel::Debug
            &&& !has_error_marker(u) && !has_warn_marker(u) && !has_debug_marker(u) && contains(
                u,
                "[INFO]"@,
            ) ==> level_of(raw) == LogLevel::Info
            &&& !has_error_marker(u) && !has_warn_marker(u) && !has_debug_marker(u) && contains(
                u,
                "INFO:"@,
            ) ==> level_of(raw) == LogLevel::Info
            &&& !has_error_marker(u) && !has_warn_marker(u) && !has_debug_marker(u)
                && !has_info_marker(u) ==> level_of(raw) == LogLevel::Unknown
        }),
{
}

/// Detects the level a line announces.
pub fn detect_level(raw: &str) -> (r: LogLevel)
    ensures
        r == level_of(raw@),
{
    let upper = to_uppercase(raw);
    let u = chars_of(upper.as_str());
    let u = u.as_slice();
    if has_substring(u, "[ERROR]") || has_substring(u, "ERROR:") {
        LogLevel::Error
    } else if has_substring(u, "[WARN]") || has_substring(u, "WARNING:") || has_substring(
        u,
        "WARN:",
    ) {
        LogLevel::Warn
    } else if has_substring(u, "[DEBUG]") || has_substring(u, "DEBUG:") {
        LogLevel::Debug
    } else if has_substring(u, "[INFO]") || has_substring(u, "INFO:") {
        LogLevel::Info
    } else {
        LogLevel::Unknown
    }
}

/// Parses a line received at `timestamp`.
pub fn parse_line_at(raw: &str, timestamp: Timestamp) -> (r: LogLine)
    ensures
        r.timestamp == timestamp,
        r.level == level_of(raw@),
        r.message@ == trim(raw@),
        r.raw@ == raw@,
{
    LogLine {
        timestamp,
        level: detect_level(raw),
        message: trimmed(raw),
        raw: raw.to_string(),
    }
}

/// Parses a line received now.
pub fn parse_line(raw: &str) -> (r: LogLine)
    ensures
        r.level == level_of(raw@),
        r.message@ == trim(raw@),
        r.raw@ == raw@,
{
    parse_line_at(raw, utc_now())
}

// ---------------------------------------------------------------------------
// Bounded buffers
// ---------------------------------------------------------------------------

/// Contents after appending `x` to a buffer of capacity `cap`: the oldest
/// entry is dropped first when the buffer is exactly full.
pub open spec fn ring_push<T>(items: Seq<T>, cap: nat, x: T) -> Seq<T> {
    if items.len() == cap && items.len() > 0 {
        items.drop_first().push(x)
    } else {
        items.push(x)
    }
}

/// A buffer that keeps the most recent entries, up to a capacity, oldest
/// first.
pub struct RingBuffer<T> {
    items: std::collections::VecDeque<T>,
    capacity: usize,
}

impl<T> RingBuffer<T> {
    /// The entries, oldest first.
    pub closed spec fn items(&self) -> Seq<T> {
        self.items@
    }

    /// The capacity the buffer was made with.
    pub closed spec fn cap(&self) -> nat {
        self.capacity as nat
    }

    /// An empty buffer.
    pub fn new(capacity: usize) -> (r: Self)
        ensures
            r.items() == Seq::<T>::empty(),
            r.cap() == capacity,
    {
        RingBuffer { items: std::collections::VecDeque::new(), capacity }
    }

    /// Number of entries held.
    pub fn len(&self) -> (r: usize)
        ensures
            r == self.items().len(),
    {
        self.items.len()
    }

    /// The capacity the buffer was made with.
    pub fn capacity(&self) -> (r: usize)
        ensures
            r == self.cap(),
    {
        self.capacity
    }

    /// The entry at position `i`, oldest first.
    pub fn get(&self, i: usize) -> (r: &T)
        requires
            i < self.items().len(),
        ensures
            *r == self.items()[i as int],
    {
        &self.items[i]
    }

    /// Appends an entry, dropping the oldest one when the buffer is full.
    pub fn push(&mut self, x: T)
        ensures
            final(self).items() == ring_push(old(self).items(), old(self).cap(), x),
            final(self).cap() == old(self).cap(),
    {
        if self.items.len() == self.capacity {
            let _ = self.items.pop_front();
        }
        self.items.push_back(x);
        proof {
            if old(self).items().len() == old(self).cap() && old(self).items().len() > 0 {
                assert(old(self).items().subrange(1, old(self).items().len() as int)
                    =~= old(self).items().drop_first());
            }
        }
    }
}

/// A buffer with room holds every entry; a full one keeps the latest `cap`.
pub proof fn law_ring_push_keeps_latest<T>(items: Seq<T>, cap: nat, x: T)
    requires
        cap > 0,
        items.len() <= cap,
    ensures
        ring_push(items, cap, x).len() <= cap,
        ring_push(items, cap, x).last() == x,
        items.len() < cap ==> ring_push(items, cap, x) == items.push(x),
        items.len() == cap ==> ring_push(items, cap, x) == items.push(x).skip(1),
{
    if items.len() == cap {
        assert(items.drop_first().push(x) =~= items.push(x).skip(1));
    }
}

/// Recent log lines.
pub struct LogBuffer {
    lines: RingBuffer<LogLine>,
}

impl LogBuffer {
    /// The lines held, oldest first.
    pub closed spec fn lines(&self) -> Seq<LogLine> {
        self.lines.items()
    }

    /// How many lines the buffer keeps.
    pub closed spec fn cap(&self) -> nat {
        self.lines.cap()
    }

    /// An empty buffer keeping up to `capacity` lines.
    pub fn new(capacity: usize) -> (r: Self)
        ensures
            r.lines() == Seq::<LogLine>::empty(),
            r.cap() == capacity,
    {
        LogBuffer { lines: RingBuffer::new(capacity) }
    }

    /// Appends a line, dropping the oldest when full.
    pub fn push_log_line(&mut self, line: LogLine)
        ensures
            final(self).lines() == ring_push(old(self).lines(), old(self).cap(), line),
            final(self).cap() == old(self).cap(),
    {
        self.lines.push(line);
    }

    /// The lines held, oldest first.
    pub fn get_log_snapshot(&self) -> (r: Vec<LogLine>)
        ensures
            r@ == self.lines(),
    {
        let mut out: Vec<LogLine> = Vec::new();
        let mut i: usize = 0;
        while i < self.lines.len()
            invariant
                i <= self.lines().len(),
                out@ == self.lines().take(i as int),
            decreases self.lines().len() - i,
        {
            out.push(self.lines.get(i).duplicate());
            i = i + 1;
            assert(out@ =~= self.lines().take(i as int));
        }
        assert(self.lines().take(self.lines().len() as int) =~= self.lines());
        out
    }
}

} // verus!
