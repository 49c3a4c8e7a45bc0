use vstd::prelude::*;
use crate::log_buffer::{LOG_CAPACITY, LogBuffer, appended};
use crate::messages::BuilderMessage;
use crate::progress::{BuilderProgress, ProgressEvent};
use crate::supervisor::{SupervisorHandle, SupervisorView, next_run};

verus! {

/// Where the builder process's runs stand, as the builder tab shows it.
#[derive(Debug, Clone, Copy, PartialEq, Eq, Structural)]
pub enum RunState {
    Idle,
    Running,
    Completed,
    Failed,
}

/// What the surroundings are to do after an update.
#[derive(Debug, Clone, Copy, PartialEq, Eq, Structural)]
pub enum BuilderCommand {
    Nothing,
    /// Terminate run `supersede`'s process, if there is one, then launch the
    /// builder process as run `run`.
    Launch { run: u64, supersede: Option<u64> },
    /// Terminate the process of the run with the given number.
    Kill(u64),
}

/// The mathematical value of a `Builder`.
pub struct BuilderView {
    pub state: RunState,
    pub log: Seq<Seq<char>>,
    pub supervisor: SupervisorView,
}

/// The line logged when a run completes.
pub open spec fn finished_line() -> Seq<char> {
    "finished running builder binary"@
}

/// The event that a report of the process amounts to: a failure to deliver
/// one counts as an error.
pub open spec fn reported_event(report: Result<BuilderProgress, String>) -> ProgressEvent {
    match report {
        Ok(progress) => progress@,
        Err(message) => ProgressEvent::Error(message@),
    }
}

/// The builder tab once the active run reports `event`: each event adds one
/// line to the log, and `Done` or `Error` ends the run.
pub open spec fn received(v: BuilderView, event: ProgressEvent) -> BuilderView {
    let ended = SupervisorView { active: None, last_run: v.supervisor.last_run };
    match event {
        ProgressEvent::Running(line) => BuilderView {
            state: v.state,
            log: appended(v.log, line),
            supervisor: v.supervisor,
        },
        ProgressEvent::Done => BuilderView {
            state: RunState::Completed,
            log: appended(v.log, finished_line()),
            supervisor: ended,
        },
        ProgressEvent::Error(message) => BuilderView {
            state: RunState::Failed,
            log: appended(v.log, message),
            supervisor: ended,
        },
        ProgressEvent::Pending => BuilderView {
            state: v.state,
            log: appended(v.log, Seq::empty()),
            supervisor: v.supervisor,
        },
    }
}

/// The builder tab after `message`, and what is then to be done.
pub open spec fn update_spec(v: BuilderView, message: BuilderMessage) -> (BuilderView, BuilderCommand) {
    match message {
        BuilderMessage::StartBinary => {
            let run = next_run(v.supervisor.last_run);
            (
                BuilderView {
                    state: RunState::Running,
                    log: Seq::empty(),
                    supervisor: SupervisorView { active: Some(run), last_run: run },
                },
                BuilderCommand::Launch { run, supersede: v.supervisor.active },
            )
        },
        BuilderMessage::StopBinary => match v.supervisor.active {
            Some(run) => (
                BuilderView {
                    state: RunState::Idle,
                    log: v.log,
                    supervisor: SupervisorView { active: None, last_run: v.supervisor.last_run },
                },
                BuilderCommand::Kill(run),
            ),
            None => (v, BuilderCommand::Nothing),
        },
        BuilderMessage::Communication(run, report) => if v.supervisor.active == Some(run) {
            (received(v, reported_event(report)), BuilderCommand::Nothing)
        } else {
            (v, BuilderCommand::Nothing)
        },
    }
}

/// The builder tab: the state of its runs and the most recent lines of their
/// output.
pub struct Builder {
    state: RunState,
    log: LogBuffer,
    supervisor: SupervisorHandle,
}

impl View for Builder {
    type V = BuilderView;

    closed spec fn view(&self) -> BuilderView {
        BuilderView { state: self.state, log: self.log@, supervisor: self.supervisor@ }
    }
}

impl Builder {
    /// The log is within its capacity, and a run is active exactly while the
    /// state is `Running`.
    pub closed spec fn wf(&self) -> bool {
        &&& self.log.wf()
        &&& self.supervisor.wf()
        &&& (self.state == RunState::Running <==> self.supervisor@.active is Some)
    }

    pub fn new() -> (r: Builder)
        ensures
            r@ == (BuilderView {
                state: RunState::Idle,
                log: Seq::empty(),
                supervisor: SupervisorView { active: None, last_run: 0 },
            }),
            r.wf(),
    {
        Builder { state: RunState::Idle, log: LogBuffer::new(), supervisor: SupervisorHandle::new() }
    }

    pub fn run_state(&self) -> (r: RunState)
        ensures
            r == self@.state,
    {
        self.state
    }

    pub fn is_running(&self) -> (r: bool)
        ensures
            r == (self@.state == RunState::Running),
    {
        self.state == RunState::Running
    }

    /// The logged lines, oldest first.
    pub fn lines(&self) -> (r: &[String])
        ensures
            r@.map_values(|s: String| s@) == self@.log,
    {
        self.log.lines()
    }

    /// The run that owns the builder process, if one does.
    pub fn active_run(&self) -> (r: Option<u64>)
        ensures
            r == self@.supervisor.active,
    {
        self.supervisor.active()
    }

    fn receive(&mut self, progress: BuilderProgress)
        requires
            old(self).wf(),
            old(self)@.supervisor.active is Some,
        ensures
            final(self).wf(),
            final(self)@ == received(old(self)@, progress@),
    {
        match progress {
            BuilderProgress::Running(line) => {
                self.log.append(line);
            },
            BuilderProgress::Done => {
                self.supervisor.stop();
                self.state = RunState::Completed;
                self.log.append("finished running builder binary".to_owned());
            },
            BuilderProgress::Error(message) => {
                self.supervisor.stop();
                self.state = RunState::Failed;
                self.log.append(message);
            },
            BuilderProgress::Pending => {
                self.log.append(String::new());
            },
        }
    }

    /// Handles `message` and returns what is to be done about the builder
    /// process. Starting supersedes the active run, if any; stopping cancels
    /// it and leaves the tab idle; reports count only while their run is the
    /// active one.
    pub fn update(&mut self, message: BuilderMessage) -> (command: BuilderCommand)
        requires
            old(self).wf(),
        ensures
            final(self).wf(),
            final(self)@.log.len() <= LOG_CAPACITY,
            (final(self)@, command) == update_spec(old(self)@, message),
    {
        match message {
            BuilderMessage::StartBinary => {
                let (run, supersede) = self.supervisor.start();
                self.state = RunState::Running;
                self.log = LogBuffer::new();
                BuilderCommand::Launch { run, supersede }
            },
            BuilderMessage::StopBinary => match self.supervisor.stop() {
                Some(run) => {
                    self.state = RunState::Idle;
                    BuilderCommand::Kill(run)
                },
                None => BuilderCommand::Nothing,
            },
            BuilderMessage::Communication(run, report) => {
                if self.supervisor.is_current(run) {
                    let progress = match report {
                        Ok(progress) => progress,
                        Err(message) => BuilderProgress::Error(message),
                    };
                    self.receive(progress);
                }
                BuilderCommand::Nothing
            },
        }
    }
}

/// The builder tab after each of `messages` in turn.
pub open spec fn update_all(v: BuilderView, messages: Seq<BuilderMessage>) -> BuilderView
    decreases messages.len(),
{
    if messages.len() == 0 {
        v
    } else {
        update_spec(update_all(v, messages.drop_last()), messages.last()).0
    }
}

/// Whether `message` is a report of run `run`.
pub open spec fn reports_of(message: BuilderMessage, run: u64) -> bool {
    match message {
        BuilderMessage::Communication(r, _) => r == run,
        _ => false,
    }
}

/// Stopping when no run is active changes nothing and asks for nothing.
pub proof fn lemma_stop_when_idle_changes_nothing(v: BuilderView)
    requires
        v.supervisor.active is None,
    ensures
        update_spec(v, BuilderMessage::StopBinary) == (v, BuilderCommand::Nothing),
{
}

/// Starting while run `prior` is active asks for `prior`'s process to be
/// terminated before the new run is launched; the new run has a number of its
/// own and is then the only active one.
pub proof fn lemma_start_supersedes_active_run(v: BuilderView, prior: u64)
    requires
        v.supervisor.active == Some(prior),
        prior == v.supervisor.last_run,
    ensures
        ({
            let (after, command) = update_spec(v, BuilderMessage::StartBinary);
            &&& command matches BuilderCommand::Launch { run, supersede }
            &&& supersede == Some(prior)
            &&& run != prior
            &&& after.supervisor.active == Some(run)
        }),
{
}

/// A run ends on its first `Done` or `Error`, and on a stop: it is then no
/// longer active.
pub proof fn lemma_run_ends(v: BuilderView, run: u64, event: ProgressEvent)
    requires
        v.supervisor.active == Some(run),
        event.is_terminal(),
    ensures
        received(v, event).supervisor.active is None,
        update_spec(v, BuilderMessage::StopBinary).0.supervisor.active is None,
{
}

/// Whatever a run that is not active still reports, in any number and order,
/// changes nothing: once a run has ended or been stopped, it is silent.
pub proof fn lemma_inactive_run_is_ignored(v: BuilderView, run: u64, messages: Seq<BuilderMessage>)
    requires
        v.supervisor.active != Some(run),
        forall|i: int| 0 <= i < messages.len() ==> reports_of(#[trigger] messages[i], run),
    ensures
        update_all(v, messages) == v,
    decreases messages.len(),
{
    if messages.len() > 0 {
        lemma_inactive_run_is_ignored(v, run, messages.drop_last());
        assert(reports_of(messages[messages.len() - 1], run));
    }
}

} // verus!
