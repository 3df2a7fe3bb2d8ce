//! Scanning a log stream for a target message.
//!
//! The scanner decides, line by line, whether the target substring has
//! appeared. Lines that do not contain it are buffered so that a failed wait
//! can report everything that was seen. [`LogStream`] drives a readable byte
//! source through the scanner until the message is found or the stream ends.

use std::io::BufRead;
use vstd::prelude::*;

verus! {

/// A line contains the target when the target occurs in it as a literal,
/// case-sensitive substring.
pub open spec fn line_contains(line: Seq<char>, msg: Seq<char>) -> bool {
    exists|i: int|
        0 <= i && i + msg.len() <= line.len() && #[trigger] line.subrange(
            i,
            i + msg.len() as int,
        ) == msg
}

/// Index of the first line that contains the target, or `lines.len()` when no
/// line does.
pub open spec fn first_match_index(lines: Seq<Seq<char>>, msg: Seq<char>) -> int
    decreases lines.len(),
{
    if lines.len() == 0 {
        0
    } else if line_contains(lines[0], msg) {
        0
    } else {
        1 + first_match_index(lines.drop_first(), msg)
    }
}

/// `first_match_index` points at a line that contains the target and no line
/// before it does; when no line contains the target it is the whole length.
pub proof fn lemma_first_match_properties(lines: Seq<Seq<char>>, msg: Seq<char>)
    ensures
        0 <= first_match_index(lines, msg) <= lines.len(),
        first_match_index(lines, msg) < lines.len() ==> line_contains(
            lines[first_match_index(lines, msg)],
            msg,
        ),
        forall|i: int| 0 <= i < first_match_index(lines, msg) ==> !line_contains(lines[i], msg),
    decreases lines.len(),
{
    if lines.len() == 0 {
    } else if line_contains(lines[0], msg) {
    } else {
        lemma_first_match_properties(lines.drop_first(), msg);
        assert forall|i: int| 0 <= i < first_match_index(lines, msg) implies !line_contains(
            lines[i],
            msg,
        ) by {
            if i > 0 {
                assert(lines.drop_first()[i - 1] == lines[i]);
            }
        }
    }
}

/// A point-wise description of where the first match lies determines
/// `first_match_index` exactly.
pub proof fn lemma_first_match_index_is(lines: Seq<Seq<char>>, msg: Seq<char>, k: int)
    requires
        0 <= k <= lines.len(),
        forall|i: int| 0 <= i < k ==> !line_contains(lines[i], msg),
        k < lines.len() ==> line_contains(lines[k], msg),
    ensures
        first_match_index(lines, msg) == k,
    decreases lines.len(),
{
    if lines.len() == 0 {
    } else if k == 0 {
    } else {
        assert(!line_contains(lines[0], msg));
        assert forall|i: int| 0 <= i < k - 1 implies !line_contains(
            lines.drop_first()[i],
            msg,
        ) by {
            assert(lines.drop_first()[i] == lines[i + 1]);
        }
        assert(k - 1 < lines.drop_first().len() ==> line_contains(lines.drop_first()[k - 1], msg));
        lemma_first_match_index_is(lines.drop_first(), msg, k - 1);
    }
}

/// A successful wait is settled by the lines up to and including the first
/// match: any two line sequences that agree on that prefix agree on where the
/// scan succeeds, whatever follows.
pub proof fn lemma_scan_ignores_suffix(
    l1: Seq<Seq<char>>,
    l2: Seq<Seq<char>>,
    msg: Seq<char>,
    k: int,
)
    requires
        0 <= k < l1.len(),
        k < l2.len(),
        l1.subrange(0, k + 1) == l2.subrange(0, k + 1),
        first_match_index(l1, msg) == k,
    ensures
        first_match_index(l2, msg) == k,
{
    lemma_first_match_properties(l1, msg);
    assert forall|i: int| 0 <= i < k implies !line_contains(l2[i], msg) by {
        assert(l1.subrange(0, k + 1)[i] == l2.subrange(0, k + 1)[i]);
    }
    assert(l1.subrange(0, k + 1)[k] == l2.subrange(0, k + 1)[k]);
    lemma_first_match_index_is(l2, msg, k);
}

/// The verdict of a scan is a function of the decoded line sequence and the
/// target alone, so two consumers of the same lines — one blocking, one
/// suspending between reads — reach byte-for-byte the same outcome.
pub proof fn lemma_scan_deterministic(l1: Seq<Seq<char>>, l2: Seq<Seq<char>>, msg: Seq<char>)
    requires
        l1 == l2,
    ensures
        first_match_index(l1, msg) == first_match_index(l2, msg),
{
}

/// Compares the target against the characters of `line` starting at `i`.
fn match_at(line: &str, msg: &str, i: usize, line_len: usize, msg_len: usize) -> (b: bool)
    requires
        line_len == line@.len(),
        msg_len == msg@.len(),
        i + msg_len <= line_len,
    ensures
        b == (line@.subrange(i as int, i + msg@.len()) == msg@),
{
    let mut j: usize = 0;
    while j < msg_len
        invariant
            line_len == line@.len(),
            msg_len == msg@.len(),
            i + msg_len <= line_len,
            0 <= j <= msg_len,
            forall|k: int| 0 <= k < j ==> line@[i + k] == msg@[k],
        decreases msg_len - j,
    {
        if line.get_char(i + j) != msg.get_char(j) {
            assert(line@.subrange(i as int, i + msg@.len())[j as int] != msg@[j as int]);
            return false;
        }
        j = j + 1;
    }
    assert(line@.subrange(i as int, i + msg@.len()) =~= msg@);
    true
}

/// Reports whether `line` contains `msg` as a literal, case-sensitive
/// substring. An empty target is contained in every line.
pub fn contains_substring(line: &str, msg: &str) -> (b: bool)
    ensures
        b == line_contains(line@, msg@),
{
    let line_len = line.unicode_len();
    let msg_len = msg.unicode_len();
    if msg_len > line_len {
        assert(!line_contains(line@, msg@));
        return false;
    }
    let mut i: usize = 0;
    loop
        invariant
            line_len == line@.len(),
            msg_len == msg@.len(),
            msg_len <= line_len,
            0 <= i <= line_len - msg_len,
            forall|k: int|
                0 <= k < i ==> #[trigger] line@.subrange(k, k + msg@.len() as int) != msg@,
        decreases line_len - msg_len - i,
    {
        if match_at(line, msg, i, line_len, msg_len) {
            return true;
        }
        if i == line_len - msg_len {
            assert(!line_contains(line@, msg@));
            return false;
        }
        i = i + 1;
    }
}

/// Applies the scanner to one decoded line. A line that contains the target
/// reports a match and leaves the buffer untouched; any other line is
/// appended to the buffer for later diagnostics.
pub fn handle_line(line: String, message: &str, lines: &mut Vec<String>) -> (found: bool)
    ensures
        found == line_contains(line@, message@),
        found ==> final(lines)@ == old(lines)@,
        !found ==> final(lines)@ == old(lines)@.push(line),
{
    if contains_substring(line.as_str(), message) {
        true
    } else {
        lines.push(line);
        false
    }
}

/// Declares std::io::Error — the failure a readable byte source reports —
/// so that it can stand inside [`WaitError`]. The error is carried through
/// untouched; nothing is assumed about it.
#[verifier::external_type_specification]
#[verifier::external_body]
pub struct ExIoError(std::io::Error);

/// Why a wait for a message in a stream failed.
#[derive(Debug)]
pub enum WaitError {
    /// The stream ended before the target message appeared. Carries every
    /// line that was read, in the order it was read, for diagnosis.
    EndOfStream(Vec<String>),
    /// The stream itself became unreadable.
    Io(std::io::Error),
}

impl From<std::io::Error> for WaitError {
    fn from(e: std::io::Error) -> (r: WaitError) {
        WaitError::Io(e)
    }
}

impl vstd::std_specs::convert::FromSpecImpl<std::io::Error> for WaitError {
    open spec fn obeys_from_spec() -> bool {
        true
    }

    open spec fn from_spec(e: std::io::Error) -> WaitError {
        WaitError::Io(e)
    }
}

/// Wraps the buffered non-matching lines of an exhausted stream into the
/// failure they diagnose.
pub fn end_of_stream(lines: Vec<String>) -> (r: WaitError)
    ensures
        r == WaitError::EndOfStream(lines),
{
    WaitError::EndOfStream(lines)
}

/// How a scan over a finite sequence of decoded lines ended.
pub enum ScanOutcome {
    /// The target appeared; `scanned` counts the lines read up to and
    /// including the matching one.
    Found { scanned: usize },
    /// The lines ran out first; `buffered` carries all of them, in order.
    EndOfStream { buffered: Vec<String> },
}

/// Scans an already-decoded sequence of lines for the target message: the
/// pure core that both the blocking and the suspend-based stream consumers
/// drive line by line.
pub fn scan_lines(lines: Vec<String>, message: &str) -> (r: ScanOutcome)
    ensures
        (first_match_index(lines.deep_view(), message@) < lines@.len() ==> (r
            matches ScanOutcome::Found { scanned } && scanned == first_match_index(
            lines.deep_view(),
            message@,
        ) + 1)),
        (first_match_index(lines.deep_view(), message@) == lines@.len() ==> (r
            matches ScanOutcome::EndOfStream { buffered } && buffered == lines)),
{
    let n = lines.len();
    let mut i: usize = 0;
    while i < n
        invariant
            n == lines@.len(),
            0 <= i <= n,
            forall|j: int| 0 <= j < i ==> !line_contains(lines.deep_view()[j], message@),
        decreases n - i,
    {
        if contains_substring(lines[i].as_str(), message) {
            proof {
                lemma_first_match_index_is(lines.deep_view(), message@, i as int);
            }
            return ScanOutcome::Found { scanned: i + 1 };
        }
        i = i + 1;
    }
    proof {
        lemma_first_match_index_is(lines.deep_view(), message@, n as int);
    }
    ScanOutcome::EndOfStream { buffered: lines }
}

/// An event from a line source — a decoded line or the stream's own failure
/// — stops the scan when it is an error or when its line contains the
/// target.
pub open spec fn event_stops(e: Result<String, std::io::Error>, msg: Seq<char>) -> bool {
    match e {
        Ok(line) => line_contains(line@, msg),
        Err(_) => true,
    }
}

/// Index of the first event the scan stops at, or `events.len()` when it
/// drains them all.
pub open spec fn first_stop_index(
    events: Seq<Result<String, std::io::Error>>,
    msg: Seq<char>,
) -> int
    decreases events.len(),
{
    if events.len() == 0 {
        0
    } else if event_stops(events[0], msg) {
        0
    } else {
        1 + first_stop_index(events.drop_first(), msg)
    }
}

/// A point-wise description of where the first stopping event lies
/// determines `first_stop_index` exactly.
pub proof fn lemma_first_stop_index_is(
    events: Seq<Result<String, std::io::Error>>,
    msg: Seq<char>,
    k: int,
)
    requires
        0 <= k <= events.len(),
        forall|i: int| 0 <= i < k ==> !event_stops(events[i], msg),
        k < events.len() ==> event_stops(events[k], msg),
    ensures
        first_stop_index(events, msg) == k,
    decreases events.len(),
{
    if events.len() == 0 {
    } else if k == 0 {
    } else {
        assert(!event_stops(events[0], msg));
        assert forall|i: int| 0 <= i < k - 1 implies !event_stops(
            events.drop_first()[i],
            msg,
        ) by {
            assert(events.drop_first()[i] == events[i + 1]);
        }
        assert(k - 1 < events.drop_first().len() ==> event_stops(events.drop_first()[k - 1], msg));
        lemma_first_stop_index_is(events.drop_first(), msg, k - 1);
    }
}

/// Scans a finite sequence of line-source events exactly as the wait engine
/// decides them, fixing the whole outcome taxonomy: a line that contains the
/// target, before any stream failure, succeeds and reads no further event; a
/// stream failure before any such line fails with `Io` carrying that error
/// unchanged, discarding the buffered lines; and a sequence that drains
/// error-free without a match fails with `EndOfStream` carrying every
/// decoded line, in order. No other outcome exists.
#[verifier::loop_isolation(false)]
pub fn scan_events(events: Vec<Result<String, std::io::Error>>, message: &str) -> (r: Result<
    (),
    WaitError,
>)
    ensures
        (first_stop_index(events@, message@) == events@.len() ==> (r matches Err(
            WaitError::EndOfStream(ls),
        ) && ls@.len() == events@.len() && (forall|j: int|
            0 <= j < ls@.len() ==> ((#[trigger] events@[j]) matches Ok(line) && ls@[j]
                == line)))),
        (first_stop_index(events@, message@) < events@.len() ==> (match events@[first_stop_index(
            events@,
            message@,
        )] {
            Ok(_) => r is Ok,
            Err(e) => (r matches Err(WaitError::Io(err)) && err == e),
        })),
{
    let ghost orig = events@;
    let mut remaining = events;
    let mut lines: Vec<String> = Vec::new();
    loop
        invariant
            remaining@ == orig.subrange(lines@.len() as int, orig.len() as int),
            lines@.len() <= orig.len(),
            forall|j: int| 0 <= j < lines@.len() ==> !event_stops(#[trigger] orig[j], message@),
            forall|j: int|
                0 <= j < lines@.len() ==> ((#[trigger] orig[j]) matches Ok(line) && lines@[j]
                    == line),
        decreases remaining@.len(),
    {
        if remaining.len() == 0 {
            proof {
                lemma_first_stop_index_is(orig, message@, lines@.len() as int);
            }
            return Err(end_of_stream(lines));
        }
        let ghost k = lines@.len() as int;
        let e = remaining.remove(0);
        proof {
            assert(e == orig[k]);
            assert(remaining@ =~= orig.subrange(k + 1, orig.len() as int));
        }
        match e {
            Err(err) => {
                proof {
                    lemma_first_stop_index_is(orig, message@, k);
                }
                return Err(WaitError::Io(err));
            },
            Ok(line) => {
                if handle_line(line, message, &mut lines) {
                    proof {
                        lemma_first_stop_index_is(orig, message@, k);
                    }
                    return Ok(());
                }
            },
        }
    }
}

/// An owned, blocking, readable byte source whose output is scanned for the
/// readiness message. The wait call consumes it: no other caller can observe
/// or reuse the stream while or after a wait runs.
pub struct LogStream<R> {
    inner: R,
}

/// The line-decoded remainder of a consumed [`LogStream`].
#[verifier::external_body]
#[verifier::reject_recursive_types(R)]
struct LineIter<R> {
    inner: std::io::Lines<std::io::BufReader<R>>,
}

impl<R: std::io::Read> LogStream<R> {
    /// The byte source this stream owns.
    pub closed spec fn source(self) -> R {
        self.inner
    }

    /// Takes ownership of the byte source the wait will drain.
    pub fn new(stream: R) -> (r: LogStream<R>)
        ensures
            r.source() == stream,
    {
        LogStream { inner: stream }
    }

    /// Hands the byte source back untouched.
    pub fn into_inner(self) -> (r: R)
        ensures
            r == self.source(),
    {
        self.inner
    }

    /// Relies on std::io::BufReader::new and std::io::BufRead::lines: decodes
    /// the byte source into UTF-8 lines, split at newlines.
    #[verifier::external_body]
    fn into_lines(self) -> LineIter<R> {
        LineIter { inner: std::io::BufReader::new(self.inner).lines() }
    }

    /// Synchronously drains the stream until a line contains `message`.
    /// Nothing is promised of the bytes the stream yields, but every line
    /// buffered into an `EndOfStream` failure was scanned and found not to
    /// contain the target. What each event — a decoded line, a stream
    /// failure, or the end of the stream — decides is what [`scan_events`]
    /// fixes for a known event sequence: this loop takes the same steps one
    /// event at a time.
    ///
    /// The diagnostic buffer grows by one line per non-matching read, and is
    /// explicitly bounded: a wait that has buffered `usize::MAX` lines gives
    /// up and reports the stream as ended, rather than growing without
    /// limit. The bound is unreachable in practice; it makes the otherwise
    /// open-ended accumulation explicit.
    pub fn wait_for_message(self, message: &str) -> (r: Result<(), WaitError>)
        ensures
            (r matches Err(WaitError::EndOfStream(ls)) ==> forall|i: int|
                0 <= i < ls@.len() ==> !line_contains(#[trigger] ls@[i]@, message@)),
    {
        let mut source = self.into_lines();
        let mut lines: Vec<String> = Vec::new();
        loop
            invariant
                forall|i: int|
                    0 <= i < lines@.len() ==> !line_contains(#[trigger] lines@[i]@, message@),
            decreases usize::MAX - lines@.len(),
        {
            if lines.len() == usize::MAX {
                return Err(end_of_stream(lines));
            }
            match source.next_line() {
                None => {
                    return Err(end_of_stream(lines));
                },
                Some(Err(e)) => {
                    return Err(WaitError::Io(e));
                },
                Some(Ok(line)) => {
                    if handle_line(line, message, &mut lines) {
                        return Ok(());
                    }
                },
            }
        }
    }
}

impl<R: std::io::Read> LineIter<R> {
    /// Relies on std::io::Lines::next: yields the next decoded line without
    /// its line terminator, an error if the read or the UTF-8 decoding
    /// failed, or nothing once the stream is exhausted. What comes back
    /// depends on the stream, so nothing is promised of it.
    #[verifier::external_body]
    fn next_line(&mut self) -> Option<Result<String, std::io::Error>> {
        self.inner.next()
    }
}

} // verus!
