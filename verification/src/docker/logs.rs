//! Log lines captured from job containers, and a bounded buffer that keeps the
//! most recent of them.

use std::collections::VecDeque;

use vstd::prelude::*;
use vstd::string::*;

use crate::text::{decimal, push_char};

verus! {

/// Source of a log line (stdout or stderr).
#[derive(Debug, Clone, Copy, PartialEq, Eq, Structural)]
pub enum LogSource {
    Stdout,
    Stderr,
}

/// A single line of log output.
#[derive(Debug, Clone)]
pub struct LogLine {
    /// When the line was captured, in milliseconds since the Unix epoch (UTC).
    pub timestamp: i64,
    pub source: LogSource,
    pub content: String,
}

/// How far the system clock, as `std::time::SystemTime::now` reads it, is
/// from the Unix epoch, in nanoseconds: `Ok` at or after the epoch, `Err`
/// with the distance when the clock is set before it. Nothing is claimed of
/// the value: it depends on the clock.
#[verifier::external_body]
pub(crate) fn clock_since_epoch() -> Result<u128, u128> {
    match std::time::SystemTime::now().duration_since(std::time::UNIX_EPOCH) {
        Ok(d) => Ok(d.as_nanos()),
        Err(e) => Err(e.duration().as_nanos()),
    }
}

/// Milliseconds since the Unix epoch, rounded down (towards the past), of a
/// clock reading that `clock_since_epoch` gave, held to the range of an
/// `i64`.
pub open spec fn reading_millis(reading: Result<u128, u128>) -> i64 {
    match reading {
        Ok(n) => if n / 1_000_000 > i64::MAX { i64::MAX } else { (n / 1_000_000) as i64 },
        Err(n) => {
            let m = (n + 999_999) / 1_000_000;
            if m > 0x8000_0000_0000_0000 { i64::MIN } else { (-m) as i64 }
        },
    }
}

/// The milliseconds since the Unix epoch of a clock reading.
pub fn millis_of_reading(reading: Result<u128, u128>) -> (r: i64)
    ensures
        r == reading_millis(reading),
{
    match reading {
        Ok(n) => {
            let m = n / 1_000_000;
            if m > 0x7fff_ffff_ffff_ffff {
                i64::MAX
            } else {
                m as i64
            }
        },
        Err(n) => {
            let m = n / 1_000_000 + if n % 1_000_000 == 0 { 0 } else { 1 };
            proof {
                let d: int = 1_000_000;
                let q: int = n as int / d;
                let r: int = n as int % d;
                vstd::arithmetic::div_mod::lemma_fundamental_div_mod(n as int, d);
                assert(0 <= r < d);
                if r == 0 {
                    vstd::arithmetic::div_mod::lemma_fundamental_div_mod_converse(
                        n + 999_999,
                        d,
                        q,
                        999_999,
                    );
                } else {
                    vstd::arithmetic::div_mod::lemma_fundamental_div_mod_converse(
                        n + 999_999,
                        d,
                        q + 1,
                        r - 1,
                    );
                }
            }
            if m > 0x8000_0000_0000_0000 {
                i64::MIN
            } else if m == 0x8000_0000_0000_0000 {
                i64::MIN
            } else {
                -(m as i64)
            }
        },
    }
}

/// The current time, in milliseconds since the Unix epoch (UTC), from the
/// system clock; a clock set before the epoch gives a negative value rather
/// than a failure. Nothing is claimed of the value: it depends on the clock.
pub(crate) fn utc_now_millis() -> i64 {
    millis_of_reading(clock_since_epoch())
}

/// The two-digit, zero-padded numeral of `n`, which is below 100.
pub open spec fn two_digits(n: int) -> Seq<char> {
    if n < 10 { seq!['0'] + decimal(n as nat) } else { decimal(n as nat) }
}

/// The second of the UTC day at which a timestamp in milliseconds falls.
pub open spec fn second_of_day(millis: i64) -> int {
    let secs = if millis >= 0 { millis / 1000 } else { -((-millis + 999) / 1000) };
    ((secs % 86400) + 86400) % 86400
}

/// The UTC time of day of a timestamp in milliseconds, as `HH:MM:SS`.
pub open spec fn clock_text(millis: i64) -> Seq<char> {
    let day = second_of_day(millis);
    two_digits(day / 3600) + seq![':'] + two_digits((day % 3600) / 60) + seq![':'] + two_digits(
        day % 60,
    )
}

fn second_of_day_exec(millis: i64) -> (r: u64)
    ensures
        r == second_of_day(millis),
        r < 86400,
{
    let secs: i64 = if millis >= 0 {
        millis / 1000
    } else {
        let up: i128 = (-(millis as i128) + 999) / 1000;
        -(up as i64)
    };
    (((secs % 86400) + 86400) % 86400) as u64
}

pub(crate) fn push_clock(out: &mut String, millis: i64)
    ensures
        final(out)@ == old(out)@ + clock_text(millis),
{
    let day = second_of_day_exec(millis);
    push_two_digits(out, day / 3600);
    push_char(out, ':');
    push_two_digits(out, (day % 3600) / 60);
    push_char(out, ':');
    push_two_digits(out, day % 60);
    assert(final(out)@ =~= old(out)@ + clock_text(millis));
}

/// The tag that marks a line's source.
pub open spec fn source_tag(s: LogSource) -> Seq<char> {
    match s {
        LogSource::Stdout => "[OUT]"@,
        LogSource::Stderr => "[ERR]"@,
    }
}

/// How a log line is shown: its time of day, its source and its content.
pub open spec fn line_text(l: LogLine) -> Seq<char> {
    clock_text(l.timestamp) + seq![' '] + source_tag(l.source) + seq![' '] + l.content@
}

fn push_two_digits(out: &mut String, n: u64)
    requires
        n < 100,
    ensures
        final(out)@ == old(out)@ + two_digits(n as int),
{
    if n < 10 {
        push_char(out, '0');
    }
    crate::text::push_decimal(out, n as u128);
}

impl LogLine {
    /// A line captured now.
    pub fn new(source: LogSource, content: String) -> (r: Self)
        ensures
            r.source == source,
            r.content == content,
    {
        Self { timestamp: utc_now_millis(), source, content }
    }

    /// An empty stdout line captured now.
    pub fn empty() -> (r: Self)
        ensures
            r.source == LogSource::Stdout,
            r.content@ == Seq::<char>::empty(),
    {
        Self::new(LogSource::Stdout, String::new())
    }

    /// The line as shown: `HH:MM:SS [OUT] content`.
    pub fn to_display_string(&self) -> (r: String)
        ensures
            r@ == line_text(*self),
    {
        let mut out = String::new();
        push_clock(&mut out, self.timestamp);
        push_char(&mut out, ' ');
        match self.source {
            LogSource::Stdout => out.append("[OUT]"),
            LogSource::Stderr => out.append("[ERR]"),
        }
        push_char(&mut out, ' ');
        out.append(self.content.as_str());
        assert(out@ =~= line_text(*self));
        out
    }
}

/// A bounded buffer of log lines that keeps the most recent ones.
#[derive(Debug, Clone)]
pub struct LogBuffer {
    lines: VecDeque<LogLine>,
    max_size: usize,
}

/// The lines a buffer holds after receiving `line`: once it holds `max` lines
/// or more, the oldest one is dropped to make room.
pub open spec fn pushed(lines: Seq<LogLine>, max: usize, line: LogLine) -> Seq<LogLine> {
    if lines.len() >= max && lines.len() > 0 {
        lines.drop_first().push(line)
    } else {
        lines.push(line)
    }
}

/// The last `n` lines (all of them when there are fewer), oldest first.
pub open spec fn last_lines(lines: Seq<LogLine>, n: usize) -> Seq<LogLine> {
    if n >= lines.len() {
        lines
    } else {
        lines.subrange(lines.len() - n, lines.len() as int)
    }
}

impl LogBuffer {
    /// The lines held, oldest first.
    pub closed spec fn view_lines(&self) -> Seq<LogLine> {
        self.lines@
    }

    /// The number of lines the buffer keeps.
    pub closed spec fn capacity(&self) -> usize {
        self.max_size
    }

    /// Creates a new log buffer with the specified maximum size.
    pub fn new(max_size: usize) -> (r: Self)
        ensures
            r.view_lines() == Seq::<LogLine>::empty(),
            r.capacity() == max_size,
    {
        Self { lines: VecDeque::new(), max_size }
    }

    /// Adds a log line to the buffer.
    /// If the buffer is full, the oldest line is removed.
    pub fn push(&mut self, line: LogLine)
        ensures
            final(self).view_lines() == pushed(old(self).view_lines(), old(self).capacity(), line),
            final(self).capacity() == old(self).capacity(),
    {
        if self.lines.len() >= self.max_size {
            let _ = self.lines.pop_front();
        }
        self.lines.push_back(line);
        proof {
            let o = old(self).lines@;
            if o.len() >= old(self).max_size && o.len() > 0 {
                assert(o.subrange(1, o.len() as int) =~= o.drop_first());
            }
        }
    }

    /// Returns all log lines in the buffer.
    pub fn lines(&self) -> (r: &VecDeque<LogLine>)
        ensures
            r@ == self.view_lines(),
    {
        &self.lines
    }

    /// Returns the number of lines in the buffer.
    pub fn len(&self) -> (r: usize)
        ensures
            r == self.view_lines().len(),
    {
        self.lines.len()
    }

    /// Returns true if the buffer is empty.
    pub fn is_empty(&self) -> (r: bool)
        ensures
            r == (self.view_lines().len() == 0),
    {
        self.lines.len() == 0
    }

    /// Clears all log lines from the buffer.
    pub fn clear(&mut self)
        ensures
            final(self).view_lines() == Seq::<LogLine>::empty(),
            final(self).capacity() == old(self).capacity(),
    {
        self.lines.clear();
    }

    /// Returns the last N lines from the buffer, oldest first.
    pub fn tail(&self, n: usize) -> (r: Vec<&LogLine>)
        ensures
            r@.len() == last_lines(self.view_lines(), n).len(),
            forall|i: int| 0 <= i < r@.len() ==> *(#[trigger] r@[i]) == last_lines(self.view_lines(), n)[i],
    {
        let len = self.lines.len();
        let start: usize = if n >= len { 0 } else { len - n };
        let mut out: Vec<&LogLine> = Vec::new();
        let mut i: usize = start;
        while i < len
            invariant
                len == self.lines@.len(),
                start <= i <= len,
                start == (if n >= len { 0 } else { len - n }),
                out@.len() == i - start,
                forall|k: int| 0 <= k < out@.len() ==> *(#[trigger] out@[k]) == self.lines@[start + k],
            decreases len - i,
        {
            out.push(&self.lines[i]);
            i = i + 1;
        }
        proof {
            let want = last_lines(self.lines@, n);
            assert(want.len() == len - start);
            assert forall|k: int| 0 <= k < out@.len() implies *(#[trigger] out@[k]) == want[k] by {}
        }
        out
    }

    /// Moves every line of `source` to the end of this buffer, leaving
    /// `source` empty. The capacity is not applied to the moved lines.
    pub fn append(&mut self, source: &mut Self)
        ensures
            final(self).view_lines() == old(self).view_lines() + old(source).view_lines(),
            final(source).view_lines() == Seq::<LogLine>::empty(),
            final(self).capacity() == old(self).capacity(),
            final(source).capacity() == old(source).capacity(),
    {
        self.lines.append(&mut source.lines);
    }

    /// The buffer as shown: one line per log line, separated by newlines.
    pub fn to_display_string(&self) -> (r: String)
        ensures
            r@ == crate::text::join(self.view_lines().map_values(|l: LogLine| line_text(l)), "\n"@),
    {
        let ghost texts = self.lines@.map_values(|l: LogLine| line_text(l));
        let mut out = String::new();
        let mut i: usize = 0;
        while i < self.lines.len()
            invariant
                i <= self.lines@.len(),
                texts == self.lines@.map_values(|l: LogLine| line_text(l)),
                out@ == crate::text::join(texts.take(i as int), "\n"@),
            decreases self.lines@.len() - i,
        {
            proof {
                crate::text::lemma_join_push(texts.take(i as int), "\n"@, texts[i as int]);
                assert(texts.take(i as int).push(texts[i as int]) =~= texts.take(i + 1));
            }
            if i > 0 {
                out.append("\n");
            }
            let t = self.lines[i].to_display_string();
            out.append(t.as_str());
            i = i + 1;
        }
        proof {
            assert(texts.take(self.lines@.len() as int) =~= texts);
        }
        out
    }
}

impl Default for LogBuffer {
    fn default() -> (r: Self)
        ensures
            r.view_lines() == Seq::<LogLine>::empty(),
            r.capacity() == 10000,
    {
        Self::new(10000)
    }
}

/// A buffer that holds no more lines than its capacity (at least one) keeps
/// holding no more after a push, and the pushed line is its newest.
pub proof fn law_push_stays_within_capacity(lines: Seq<LogLine>, max: usize, line: LogLine)
    requires
        lines.len() <= if max == 0 { 1 } else { max as int },
    ensures
        pushed(lines, max, line).len() <= if max == 0 { 1 } else { max as int },
        pushed(lines, max, line).last() == line,
{
}

/// Pushing keeps the latest lines: the new contents are the old contents
/// followed by the pushed line, less at most the oldest line.
pub proof fn law_push_keeps_latest(lines: Seq<LogLine>, max: usize, line: LogLine)
    ensures
        pushed(lines, max, line) == (lines.push(line)).subrange(
            (lines.len() + 1) - pushed(lines, max, line).len(),
            (lines.len() + 1) as int,
        ),
        pushed(lines, max, line).len() == lines.len() + 1 || pushed(lines, max, line).len()
            == lines.len(),
{
    if lines.len() >= max && lines.len() > 0 {
        assert(lines.drop_first().push(line) =~= lines.push(line).subrange(1, (lines.len() + 1) as int));
    } else {
        assert(lines.push(line) =~= lines.push(line).subrange(0, (lines.len() + 1) as int));
    }
}

} // verus!
