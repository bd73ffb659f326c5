//! The in-memory log: a bounded buffer that keeps the most recent lines.
use crate::decimal::{decimal, push_decimal};
use crate::text::{chars_of, lines, split_lines, string_of, strings, texts};
use std::collections::VecDeque;
use vstd::prelude::*;

verus! {

/// A buffer of log lines that holds at most `max_lines` of them and drops
/// the oldest to make room.
pub struct LogBuffer {
    inner: VecDeque<String>,
    max_lines: usize,
}

pub struct LogBufferView {
    /// The lines held, oldest first.
    pub lines: Seq<Seq<char>>,
    /// How many lines the buffer holds at most.
    pub max_lines: usize,
}

impl View for LogBuffer {
    type V = LogBufferView;

    closed spec fn view(&self) -> LogBufferView {
        LogBufferView { lines: strings(self.inner@), max_lines: self.max_lines }
    }
}

/// The last `count` items of `s`, or all of them where there are fewer.
pub open spec fn recent<T>(s: Seq<T>, count: int) -> Seq<T> {
    if count >= s.len() {
        s
    } else if count <= 0 {
        Seq::empty()
    } else {
        s.skip(s.len() - count)
    }
}

/// The lines of a buffer after `line` was pushed.
pub open spec fn pushed(b: LogBufferView, line: Seq<char>) -> Seq<Seq<char>> {
    recent(b.lines.push(line), b.max_lines as int)
}

impl LogBuffer {
    /// An empty buffer for at most `max_lines` lines.
    pub fn new(max_lines: usize) -> (r: Self)
        ensures
            r@ == (LogBufferView { lines: Seq::empty(), max_lines }),
    {
        let r = LogBuffer { inner: VecDeque::new(), max_lines };
        assert(strings(r.inner@) =~= Seq::<Seq<char>>::empty());
        r
    }

    /// Appends a line and drops the oldest lines until no more than
    /// `max_lines` are held.
    pub fn push(&mut self, line: String)
        ensures
            final(self)@.max_lines == old(self)@.max_lines,
            final(self)@.lines == pushed(old(self)@, line@),
    {
        broadcast use vstd::std_specs::vecdeque::group_vec_dequeue_axioms;

        let ghost all = old(self)@.lines.push(line@);
        self.inner.push_back(line);
        assert(strings(self.inner@) =~= all);
        while self.inner.len() > self.max_lines
            invariant
                self.max_lines == old(self).max_lines,
                self.inner@.len() <= all.len(),
                self.inner@.len() == all.len() || self.inner@.len() >= self.max_lines,
                strings(self.inner@) == all.skip(all.len() - self.inner@.len()),
            decreases self.inner@.len(),
        {
            let ghost before = self.inner@;
            self.inner.pop_front();
            assert(self.inner@ == before.subrange(1, before.len() as int));
            assert forall|j: int| 0 <= j < self.inner@.len() implies strings(self.inner@)[j]
                == all.skip(all.len() - self.inner@.len())[j] by {
                assert(strings(before)[j + 1] == before[j + 1]@);
            }
            assert(strings(self.inner@) =~= all.skip(all.len() - self.inner@.len()));
        }
        assert(strings(self.inner@) =~= pushed(old(self)@, line@));
    }

    /// The most recent `count` lines, oldest first.
    pub fn get_recent(&self, count: usize) -> (r: Vec<String>)
        ensures
            strings(r@) == recent(self@.lines, count as int),
    {
        broadcast use vstd::std_specs::vecdeque::group_vec_dequeue_axioms;

        let n = self.inner.len();
        let skip: usize = if count >= n {
            0
        } else {
            n - count
        };
        let mut r: Vec<String> = Vec::new();
        let mut i: usize = skip;
        while i < n
            invariant
                skip <= i <= n == self.inner@.len(),
                strings(r@) == strings(self.inner@).subrange(skip as int, i as int),
            decreases n - i,
        {
            let ghost before = r@;
            let line = self.inner[i].clone();
            assert(line@ == self.inner@[i as int]@);
            r.push(line);
            i += 1;
            assert(strings(r@) =~= strings(before).push(self.inner@[i - 1]@));
            assert(strings(self.inner@).subrange(skip as int, i as int) =~= strings(
                self.inner@,
            ).subrange(skip as int, i - 1).push(self.inner@[i - 1]@));
        }
        assert(strings(r@) =~= recent(self@.lines, count as int));
        r
    }

    /// How many lines the buffer holds.
    pub fn len(&self) -> (r: usize)
        ensures
            r == self@.lines.len(),
    {
        broadcast use vstd::std_specs::vecdeque::group_vec_dequeue_axioms;

        self.inner.len()
    }

    /// How many lines the buffer holds at most.
    pub fn max_lines(&self) -> (r: usize)
        ensures
            r == self@.max_lines,
    {
        self.max_lines
    }
}

/// How many lines the buffer that the whole process shares holds at most.
pub const GLOBAL_BUFFER_LINES: usize = 500;

/// The buffer that the whole process shares, as it is when the process
/// begins: empty, for 500 lines.
pub fn global_buffer() -> (r: LogBuffer)
    ensures
        r@ == (LogBufferView { lines: Seq::empty(), max_lines: GLOBAL_BUFFER_LINES }),
{
    LogBuffer::new(GLOBAL_BUFFER_LINES)
}

/// The command line that reads the system log for the daemon's lines.
pub open spec fn syslog_command_text(limit: usize) -> Seq<char> {
    "logread 2>/dev/null | grep -i trusttunnel | tail -n "@ + decimal(limit as nat)
}

pub fn syslog_command(limit: usize) -> (r: String)
    ensures
        r@ == syslog_command_text(limit),
{
    let mut out = chars_of("logread 2>/dev/null | grep -i trusttunnel | tail -n ");
    push_decimal(&mut out, limit as u64);
    string_of(&out)
}

/// The items of `all` that hold a character, in order.
pub open spec fn nonempty(all: Seq<Seq<char>>) -> Seq<Seq<char>>
    decreases all.len(),
{
    if all.len() == 0 {
        Seq::empty()
    } else if all.last().len() > 0 {
        nonempty(all.drop_last()).push(all.last())
    } else {
        nonempty(all.drop_last())
    }
}

/// The lines of the system log that a reading of it printed: the lines
/// that are not empty.
pub fn syslog_lines(output: &str) -> (r: Vec<String>)
    ensures
        strings(r@) == nonempty(lines(output@)),
{
    let raw = chars_of(output);
    let all = split_lines(&raw);
    let mut r: Vec<String> = Vec::new();
    let mut i: usize = 0;
    assert(strings(r@) =~= nonempty(texts(all@).take(0)));
    while i < all.len()
        invariant
            i <= all.len(),
            strings(r@) == nonempty(texts(all@).take(i as int)),
        decreases all.len() - i,
    {
        let ghost before = r@;
        assert(texts(all@).take(i + 1).drop_last() == texts(all@).take(i as int));
        assert(texts(all@).take(i + 1).last() == all@[i as int]@);
        if all[i].len() > 0 {
            r.push(string_of(&all[i]));
            assert(strings(r@) =~= strings(before).push(all@[i as int]@));
        }
        i += 1;
    }
    assert(texts(all@).take(all.len() as int) == texts(all@));
    r
}

/// How many lines of the system log are wanted to fill `limit` lines,
/// given what the buffer holds.
pub open spec fn shortfall(held: nat, limit: usize) -> nat {
    if held >= limit {
        0
    } else {
        (limit - held) as nat
    }
}

/// How many lines to read from the system log so that `limit` lines can be
/// shown; none where the buffer holds enough.
pub fn syslog_shortfall(buffer: &LogBuffer, limit: usize) -> (r: usize)
    ensures
        r == shortfall(buffer@.lines.len(), limit),
{
    let n = buffer.len();
    if n >= limit {
        0
    } else {
        limit - n
    }
}

/// The lines to show: the most recent `limit` lines of the buffer, and
/// where these are fewer, the lines of the system log before them, cut to
/// `limit` lines in all.
pub open spec fn combined(held: Seq<Seq<char>>, limit: usize, syslog: Seq<Seq<char>>) -> Seq<
    Seq<char>,
> {
    let own = recent(held, limit as int);
    if own.len() < limit {
        if (syslog + own).len() > limit {
            (syslog + own).take(limit as int)
        } else {
            syslog + own
        }
    } else {
        own
    }
}

/// Collects the lines to show from the buffer and from the lines read from
/// the system log.
pub fn get_combined_logs(buffer: &LogBuffer, limit: usize, syslog: &Vec<String>) -> (r: Vec<
    String,
>)
    ensures
        strings(r@) == combined(buffer@.lines, limit, strings(syslog@)),
{
    let own = buffer.get_recent(limit);
    if own.len() >= limit {
        return own;
    }
    let ghost whole = strings(syslog@) + strings(own@);
    let mut r: Vec<String> = Vec::new();
    let mut i: usize = 0;
    while i < syslog.len() && r.len() < limit
        invariant
            i <= syslog.len(),
            r.len() == i,
            r.len() <= limit,
            strings(r@) == strings(syslog@).take(i as int),
        decreases syslog.len() - i,
    {
        r.push(syslog[i].clone());
        i += 1;
        assert(strings(r@) =~= strings(syslog@).take(i as int));
    }
    let mut k: usize = 0;
    while k < own.len() && r.len() < limit
        invariant
            k <= own.len(),
            i <= syslog.len(),
            r.len() == i + k,
            r.len() <= limit,
            own.len() < limit,
            i < syslog.len() ==> i == limit,
            whole == strings(syslog@) + strings(own@),
            strings(r@) == whole.take(i + k),
        decreases own.len() - k,
    {
        r.push(own[k].clone());
        k += 1;
        assert(strings(r@) =~= whole.take(i + k));
    }
    assert(strings(r@) =~= combined(buffer@.lines, limit, strings(syslog@)));
    r
}

} // verus!
