use vstd::prelude::*;

verus! {

/// Most lines a log buffer holds at once.
pub const LOG_CAPACITY: usize = 100;

/// What a buffer that held `lines` holds once `line` is appended: the oldest
/// line is evicted first when the buffer is full.
pub open spec fn appended(lines: Seq<Seq<char>>, line: Seq<char>) -> Seq<Seq<char>> {
    if lines.len() >= LOG_CAPACITY {
        lines.drop_first().push(line)
    } else {
        lines.push(line)
    }
}

/// What a buffer that held `lines` holds once each of `more` is appended, in order.
pub open spec fn appended_all(lines: Seq<Seq<char>>, more: Seq<Seq<char>>) -> Seq<Seq<char>>
    decreases more.len(),
{
    if more.len() == 0 {
        lines
    } else {
        appended(appended_all(lines, more.drop_last()), more.last())
    }
}

/// The last `LOG_CAPACITY` elements of `s`, or all of it when it is shorter.
pub open spec fn most_recent(s: Seq<Seq<char>>) -> Seq<Seq<char>> {
    if s.len() <= LOG_CAPACITY {
        s
    } else {
        s.subrange(s.len() - LOG_CAPACITY, s.len() as int)
    }
}

/// A first-in first-out sequence of text lines that never holds more than
/// `LOG_CAPACITY` of them.
pub struct LogBuffer {
    lines: Vec<String>,
}

impl View for LogBuffer {
    type V = Seq<Seq<char>>;

    closed spec fn view(&self) -> Seq<Seq<char>> {
        self.lines@.map_values(|s: String| s@)
    }
}

impl LogBuffer {
    /// The buffer stays within its capacity.
    pub open spec fn wf(&self) -> bool {
        self@.len() <= LOG_CAPACITY
    }

    pub fn new() -> (r: LogBuffer)
        ensures
            r@ == Seq::<Seq<char>>::empty(),
            r.wf(),
    {
        LogBuffer { lines: Vec::new() }
    }

    /// Adds `line` at the end, first evicting the oldest line if the buffer is full.
    pub fn append(&mut self, line: String)
        requires
            old(self).wf(),
        ensures
            final(self)@ == appended(old(self)@, line@),
            final(self).wf(),
    {
        if self.lines.len() >= LOG_CAPACITY {
            self.lines.remove(0);
        }
        self.lines.push(line);
        proof {
            assert(self@ =~= appended(old(self)@, line@));
        }
    }

    pub fn len(&self) -> (r: usize)
        ensures
            r == self@.len(),
    {
        self.lines.len()
    }

    /// The lines held, oldest first.
    pub fn lines(&self) -> (r: &[String])
        ensures
            r@.map_values(|s: String| s@) == self@,
    {
        self.lines.as_slice()
    }
}

/// Appending never takes a buffer beyond its capacity, whatever lines are
/// appended to whatever buffer within capacity.
pub proof fn lemma_appends_stay_within_capacity(lines: Seq<Seq<char>>, more: Seq<Seq<char>>)
    requires
        lines.len() <= LOG_CAPACITY,
    ensures
        appended_all(lines, more).len() <= LOG_CAPACITY,
    decreases more.len(),
{
    if more.len() > 0 {
        lemma_appends_stay_within_capacity(lines, more.drop_last());
    }
}

/// An empty buffer, once any sequence of lines is appended to it, holds exactly
/// the most recent `LOG_CAPACITY` of them, in the order they were appended.
pub proof fn lemma_appends_keep_most_recent(more: Seq<Seq<char>>)
    ensures
        appended_all(Seq::empty(), more) == most_recent(more),
    decreases more.len(),
{
    if more.len() > 0 {
        let prefix = more.drop_last();
        lemma_appends_keep_most_recent(prefix);
        if prefix.len() < LOG_CAPACITY {
            assert(prefix.push(more.last()) =~= more);
        } else {
            let kept = most_recent(prefix);
            assert(kept.drop_first().push(more.last()) =~= most_recent(more));
        }
    }
}

} // verus!
