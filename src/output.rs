use vstd::prelude::*;
use vstd::string::StringExecFns;
use crate::progress::{BuilderProgress, ProgressEvent, completes, progress_views, signals_completion};

verus! {

/// How the builder process's output reaches the reader.
#[derive(Debug, Clone, Copy, PartialEq, Eq, Structural)]
pub enum OutputMode {
    /// One pseudo-terminal stream carries standard output and standard error
    /// together; every line is ordinary output.
    Terminal,
    /// Standard output and standard error come through separate pipes; any
    /// line on standard error is fatal.
    Pipes,
}

/// Where a run's output stream stands.
#[derive(Debug, Clone, Copy, PartialEq, Eq, Structural)]
pub enum StreamPhase {
    /// The process is being started.
    Connecting,
    /// The process runs and its lines are being read.
    Streaming,
    /// The completion marker was seen.
    Completed,
    /// The process could not be started, its output could not be read, or it
    /// reported an error.
    Failed,
}

impl StreamPhase {
    pub open spec fn is_finished(self) -> bool {
        self is Completed || self is Failed
    }
}

/// What the reader observed of the process.
#[derive(Debug, Clone)]
pub enum StreamInput {
    /// The process was started.
    Spawned,
    /// The process could not be started; the text says why.
    SpawnFailed(String),
    /// A line arrived on standard output (or on the pseudo-terminal).
    Stdout(String),
    /// A line arrived on standard error.
    Stderr(String),
    /// Reading the output failed.
    ReadFailed,
    /// The output ended.
    Ended,
}

/// What the error reported when the process cannot be started begins with;
/// the reason follows.
pub open spec fn launch_failure_prefix() -> Seq<char> {
    "Failed to start binary: "@
}

/// The error reported when the output cannot be read.
pub open spec fn read_failure_message() -> Seq<char> {
    "Failed to read stdout"@
}

/// The error reported when the output ends before the completion marker.
pub open spec fn end_of_stream_message() -> Seq<char> {
    "Failed to read stdout: reached end of stream"@
}

/// The events for an output line: the line itself, followed by `Done` when it
/// holds the completion marker.
pub open spec fn line_step(line: String) -> (StreamPhase, Seq<ProgressEvent>) {
    if completes(line@) {
        (StreamPhase::Completed, seq![ProgressEvent::Running(line@), ProgressEvent::Done])
    } else {
        (StreamPhase::Streaming, seq![ProgressEvent::Running(line@)])
    }
}

/// The phase a stream moves to on `input`, and the events that it emits.
/// Before the process is started only its start, or the failure to start it,
/// counts; once the run is over nothing does.
pub open spec fn step_spec(mode: OutputMode, phase: StreamPhase, input: StreamInput) -> (
    StreamPhase,
    Seq<ProgressEvent>,
) {
    match phase {
        StreamPhase::Connecting => match input {
            StreamInput::Spawned => (StreamPhase::Streaming, Seq::empty()),
            StreamInput::SpawnFailed(reason) => (
                StreamPhase::Failed,
                seq![ProgressEvent::Error(launch_failure_prefix() + reason@)],
            ),
            _ => (phase, Seq::empty()),
        },
        StreamPhase::Streaming => match input {
            StreamInput::Stdout(line) => line_step(line),
            StreamInput::Stderr(line) => match mode {
                OutputMode::Terminal => line_step(line),
                OutputMode::Pipes => (StreamPhase::Failed, seq![ProgressEvent::Error(line@)]),
            },
            StreamInput::ReadFailed => (
                StreamPhase::Failed,
                seq![ProgressEvent::Error(read_failure_message())],
            ),
            StreamInput::Ended => (
                StreamPhase::Failed,
                seq![ProgressEvent::Error(end_of_stream_message())],
            ),
            _ => (phase, Seq::empty()),
        },
        _ => (phase, Seq::empty()),
    }
}

/// The phase reached from `phase` on each of `inputs` in turn, and all the
/// events emitted on the way, in order.
pub open spec fn run_spec(mode: OutputMode, phase: StreamPhase, inputs: Seq<StreamInput>) -> (
    StreamPhase,
    Seq<ProgressEvent>,
)
    decreases inputs.len(),
{
    if inputs.len() == 0 {
        (phase, Seq::empty())
    } else {
        let (mid, before) = run_spec(mode, phase, inputs.drop_last());
        let (last, after) = step_spec(mode, mid, inputs.last());
        (last, before + after)
    }
}

/// Turns what is observed of one run of the builder process into progress
/// events: the state machine of a single run's output.
pub struct OutputMultiplexer {
    mode: OutputMode,
    phase: StreamPhase,
}

impl OutputMultiplexer {
    pub closed spec fn spec_mode(&self) -> OutputMode {
        self.mode
    }

    pub closed spec fn spec_phase(&self) -> StreamPhase {
        self.phase
    }

    /// A multiplexer for a run that is about to be started.
    pub fn new(mode: OutputMode) -> (r: OutputMultiplexer)
        ensures
            r.spec_mode() == mode,
            r.spec_phase() == StreamPhase::Connecting,
    {
        OutputMultiplexer { mode, phase: StreamPhase::Connecting }
    }

    pub fn mode(&self) -> (r: OutputMode)
        ensures
            r == self.spec_mode(),
    {
        self.mode
    }

    pub fn phase(&self) -> (r: StreamPhase)
        ensures
            r == self.spec_phase(),
    {
        self.phase
    }

    /// Whether the run is over, so that nothing more is to be read.
    pub fn is_finished(&self) -> (r: bool)
        ensures
            r == self.spec_phase().is_finished(),
    {
        matches!(self.phase, StreamPhase::Completed | StreamPhase::Failed)
    }

    fn line(&mut self, line: String) -> (events: Vec<BuilderProgress>)
        requires
            old(self).spec_phase() is Streaming,
        ensures
            final(self).spec_mode() == old(self).spec_mode(),
            (final(self).spec_phase(), progress_views(events@)) == line_step(line),
    {
        let done = signals_completion(line.as_str());
        let mut events: Vec<BuilderProgress> = Vec::new();
        events.push(BuilderProgress::Running(line));
        if done {
            events.push(BuilderProgress::Done);
            self.phase = StreamPhase::Completed;
        }
        proof {
            assert(progress_views(events@) =~= line_step(line).1);
        }
        events
    }

    fn fail(&mut self, message: String) -> (events: Vec<BuilderProgress>)
        ensures
            final(self).spec_mode() == old(self).spec_mode(),
            final(self).spec_phase() == StreamPhase::Failed,
            progress_views(events@) == seq![ProgressEvent::Error(message@)],
    {
        self.phase = StreamPhase::Failed;
        let events = vec![BuilderProgress::Error(message)];
        proof {
            assert(progress_views(events@) =~= seq![ProgressEvent::Error(message@)]);
        }
        events
    }

    /// Takes in what was observed of the process and returns the events to
    /// report, in order. Once the run is over, nothing more is reported.
    pub fn step(&mut self, input: StreamInput) -> (events: Vec<BuilderProgress>)
        ensures
            final(self).spec_mode() == old(self).spec_mode(),
            (final(self).spec_phase(), progress_views(events@)) == step_spec(
                old(self).spec_mode(),
                old(self).spec_phase(),
                input,
            ),
    {
        let none: Vec<BuilderProgress> = Vec::new();
        proof {
            assert(progress_views(none@) =~= Seq::<ProgressEvent>::empty());
        }
        match self.phase {
            StreamPhase::Connecting => match input {
                StreamInput::Spawned => {
                    self.phase = StreamPhase::Streaming;
                    none
                },
                StreamInput::SpawnFailed(reason) => {
                    let message = "Failed to start binary: ".to_owned().concat(reason.as_str());
                    self.fail(message)
                },
                _ => none,
            },
            StreamPhase::Streaming => match input {
                StreamInput::Stdout(line) => self.line(line),
                StreamInput::Stderr(line) => match self.mode {
                    OutputMode::Terminal => self.line(line),
                    OutputMode::Pipes => self.fail(line),
                },
                StreamInput::ReadFailed => self.fail("Failed to read stdout".to_owned()),
                StreamInput::Ended => self.fail(
                    "Failed to read stdout: reached end of stream".to_owned(),
                ),
                _ => none,
            },
            _ => none,
        }
    }
}

/// No event but the last of `events` ends a run.
pub open spec fn terminal_only_last(events: Seq<ProgressEvent>) -> bool {
    forall|i: int| 0 <= i < events.len() - 1 ==> !(#[trigger] events[i]).is_terminal()
}

/// Whether `events` end with an event that ends a run.
pub open spec fn ends_with_terminal(events: Seq<ProgressEvent>) -> bool {
    events.len() > 0 && events.last().is_terminal()
}

proof fn lemma_step_terminal(mode: OutputMode, phase: StreamPhase, input: StreamInput)
    ensures
        ({
            let (next, events) = step_spec(mode, phase, input);
            &&& terminal_only_last(events)
            &&& phase.is_finished() ==> next == phase && events.len() == 0
            &&& !phase.is_finished() ==> (next.is_finished() <==> ends_with_terminal(events))
            &&& !phase.is_finished() ==> (next is Completed <==> (events.len() > 0
                && events.last() is Done))
        }),
{
}

/// Whatever is observed of a run, from its start: no event but the last one
/// reported ends the run, and the last one does exactly when the run is over,
/// `Done` exactly when it completed. So a run that is over reported exactly
/// one `Done` or `Error`, and nothing after it.
pub proof fn lemma_one_terminal_event(mode: OutputMode, inputs: Seq<StreamInput>)
    ensures
        ({
            let (phase, events) = run_spec(mode, StreamPhase::Connecting, inputs);
            &&& terminal_only_last(events)
            &&& phase.is_finished() <==> ends_with_terminal(events)
            &&& phase is Completed <==> (events.len() > 0 && events.last() is Done)
        }),
    decreases inputs.len(),
{
    if inputs.len() > 0 {
        lemma_one_terminal_event(mode, inputs.drop_last());
        let (mid, before) = run_spec(mode, StreamPhase::Connecting, inputs.drop_last());
        let (last, after) = step_spec(mode, mid, inputs.last());
        lemma_step_terminal(mode, mid, inputs.last());
        let events = before + after;
        if mid.is_finished() {
            assert(events =~= before);
        } else {
            assert forall|i: int| 0 <= i < events.len() - 1 implies !(
            #[trigger] events[i]).is_terminal() by {
                if i < before.len() {
                    assert(events[i] == before[i]);
                } else {
                    assert(events[i] == after[i - before.len()]);
                }
            }
            if after.len() > 0 {
                assert(events.last() == after.last());
            } else {
                assert(events =~= before);
            }
        }
    }
}

} // verus!
