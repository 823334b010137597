//! A bounded log of narrative lines with a scroll cursor.
use vstd::prelude::*;
use std::collections::VecDeque;

verus! {

/// Most lines the log keeps.
pub const LOG_CAPACITY: usize = 1000;

/// The lines after `line` is logged: at capacity the oldest line goes first.
pub open spec fn pushed(lines: Seq<Seq<char>>, line: Seq<char>) -> Seq<Seq<char>> {
    if lines.len() >= LOG_CAPACITY {
        lines.drop_first().push(line)
    } else {
        lines.push(line)
    }
}

/// The lines after each of `lines` is logged in turn, starting from `start`.
pub open spec fn pushed_all(start: Seq<Seq<char>>, lines: Seq<Seq<char>>) -> Seq<Seq<char>>
    decreases lines.len(),
{
    if lines.len() == 0 {
        start
    } else {
        pushed(pushed_all(start, lines.drop_last()), lines.last())
    }
}

/// Logging any lines into an empty log keeps the newest `LOG_CAPACITY` of them, in the
/// order they were logged: the oldest are the ones evicted.
pub proof fn law_log_keeps_newest(lines: Seq<Seq<char>>)
    ensures
        pushed_all(Seq::empty(), lines) == lines.subrange(
            if lines.len() > LOG_CAPACITY { lines.len() - LOG_CAPACITY } else { 0 },
            lines.len() as int,
        ),
    decreases lines.len(),
{
    if lines.len() == 0 {
        assert(lines.subrange(0, 0) =~= Seq::<Seq<char>>::empty());
    } else {
        let m = lines.len() - 1;
        let prev = lines.drop_last();
        law_log_keeps_newest(prev);
        if m >= LOG_CAPACITY {
            assert(prev.subrange(m - LOG_CAPACITY, m).drop_first().push(lines.last())
                =~= lines.subrange(lines.len() - LOG_CAPACITY, lines.len() as int));
        } else {
            assert(prev.subrange(0, m).push(lines.last()) =~= lines.subrange(0, lines.len() as int));
        }
    }
}

/// Bounded log of text lines, oldest first, with the offset the log view is scrolled to.
#[derive(Debug, Clone)]
pub struct LogRing {
    lines: VecDeque<String>,
    scroll_offset: u16,
}

impl LogRing {
    /// The text of each line, oldest first.
    pub closed spec fn view(&self) -> Seq<Seq<char>> {
        self.lines@.map_values(|s: String| s@)
    }

    pub closed spec fn offset(&self) -> u16 {
        self.scroll_offset
    }

    /// The log never holds more than `LOG_CAPACITY` lines.
    pub open spec fn wf(&self) -> bool {
        self@.len() <= LOG_CAPACITY
    }

    /// An empty log, scrolled to the top.
    pub fn new() -> (r: LogRing)
        ensures
            r@ == Seq::<Seq<char>>::empty(),
            r.offset() == 0,
            r.wf(),
    {
        let r = LogRing { lines: VecDeque::new(), scroll_offset: 0 };
        assert(r@ =~= Seq::<Seq<char>>::empty());
        r
    }

    /// Appends `line`, first evicting the oldest line when the log is full.
    pub fn push(&mut self, line: String)
        ensures
            final(self)@ == pushed(old(self)@, line@),
            final(self).offset() == old(self).offset(),
            old(self).wf() ==> final(self).wf(),
    {
        let ghost text = line@;
        if self.lines.len() >= LOG_CAPACITY {
            self.lines.pop_front();
            assert(self@ =~= old(self)@.drop_first());
        }
        self.lines.push_back(line);
        assert(self@ =~= pushed(old(self)@, text));
    }

    /// Number of lines held.
    pub fn len(&self) -> (r: usize)
        ensures
            r == self@.len(),
    {
        self.lines.len()
    }

    /// The lines, oldest first.
    pub fn lines(&self) -> (r: &VecDeque<String>)
        ensures
            r@.map_values(|s: String| s@) == self@,
    {
        &self.lines
    }

    /// How far the log view is scrolled down.
    pub fn scroll_offset(&self) -> (r: u16)
        ensures
            r == self.offset(),
    {
        self.scroll_offset
    }

    /// Scrolls one line up; already at the top, it stays there.
    pub fn scroll_up(&mut self)
        ensures
            final(self)@ == old(self)@,
            final(self).offset() == if old(self).offset() > 0 {
                (old(self).offset() - 1) as u16
            } else {
                0u16
            },
    {
        if self.scroll_offset > 0 {
            self.scroll_offset -= 1;
        }
    }

    /// Scrolls one line down; the offset stops at `u16::MAX`.
    pub fn scroll_down(&mut self)
        ensures
            final(self)@ == old(self)@,
            final(self).offset() == if old(self).offset() < u16::MAX {
                (old(self).offset() + 1) as u16
            } else {
                u16::MAX
            },
    {
        self.scroll_offset = self.scroll_offset.saturating_add(1);
    }
}

} // verus!
