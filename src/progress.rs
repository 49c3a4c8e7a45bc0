use vstd::prelude::*;
use vstd::string::StringSliceAdditionalSpecFns;
use vstd::utf8::encode_utf8;

verus! {

/// What the builder process reports, as the consumer of its output sees it.
#[derive(Debug, Clone, Default)]
pub enum BuilderProgress {
    /// A line of output; the run goes on.
    Running(String),
    /// The completion marker was seen; the run is over.
    Done,
    /// The run failed; the text says why.
    Error(String),
    /// Nothing has happened yet.
    #[default]
    Pending,
}

/// The mathematical value of a `BuilderProgress`.
pub enum ProgressEvent {
    Running(Seq<char>),
    Done,
    Error(Seq<char>),
    Pending,
}

impl ProgressEvent {
    /// Whether the event ends a run.
    pub open spec fn is_terminal(self) -> bool {
        self is Done || self is Error
    }
}

impl View for BuilderProgress {
    type V = ProgressEvent;

    open spec fn view(&self) -> ProgressEvent {
        match self {
            BuilderProgress::Running(line) => ProgressEvent::Running(line@),
            BuilderProgress::Done => ProgressEvent::Done,
            BuilderProgress::Error(message) => ProgressEvent::Error(message@),
            BuilderProgress::Pending => ProgressEvent::Pending,
        }
    }
}

/// The views of a sequence of progress values.
pub open spec fn progress_views(s: Seq<BuilderProgress>) -> Seq<ProgressEvent> {
    s.map_values(|p: BuilderProgress| p@)
}

/// The bytes of the completion marker `done`.
pub open spec fn sentinel() -> Seq<u8> {
    seq![100u8, 111u8, 110u8, 101u8]
}

/// Whether `bytes` contain the completion marker as a contiguous run.
pub open spec fn has_sentinel(bytes: Seq<u8>) -> bool {
    exists|i: int| 0 <= i && i + 4 <= bytes.len() && #[trigger] bytes.subrange(i, i + 4) == sentinel()
}

/// Whether the text, encoded as UTF-8, holds the completion marker; as the
/// marker is ASCII, this is whether the characters `done` occur in it in a row.
pub open spec fn completes(text: Seq<char>) -> bool {
    has_sentinel(encode_utf8(text))
}

/// Whether a line of output signals that the run is complete: its text holds
/// `done`, in lower case, anywhere.
pub fn signals_completion(line: &str) -> (r: bool)
    ensures
        r == completes(line@),
{
    let bytes = line.as_bytes();
    let n = bytes.len();
    let mut i: usize = 0;
    while n - i >= 4
        invariant
            i <= n,
            bytes@ == line.spec_bytes(),
            n == bytes@.len(),
            forall|j: int| 0 <= j < i ==> #[trigger] bytes@.subrange(j, j + 4) != sentinel(),
        decreases n - i,
    {
        // 'd', 'o', 'n', 'e'
        if bytes[i] == 100u8 && bytes[i + 1] == 111u8 && bytes[i + 2] == 110u8 && bytes[i + 3] == 101u8 {
            assert(bytes@.subrange(i as int, i + 4) =~= sentinel());
            return true;
        }
        assert(bytes@.subrange(i as int, i + 4)[0] == bytes@[i as int]);
        assert(bytes@.subrange(i as int, i + 4)[1] == bytes@[i + 1]);
        assert(bytes@.subrange(i as int, i + 4)[2] == bytes@[i + 2]);
        assert(bytes@.subrange(i as int, i + 4)[3] == bytes@[i + 3]);
        i = i + 1;
    }
    assert forall|j: int| 0 <= j && j + 4 <= bytes@.len() implies #[trigger] bytes@.subrange(j, j + 4) != sentinel() by {
        assert(j < i);
    }
    false
}

} // verus!
