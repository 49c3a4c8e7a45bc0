use vstd::prelude::*;

verus! {

/// The run that follows run `run`: run numbers go up by one and wrap around,
/// so a run never shares its number with the one before it.
pub open spec fn next_run(run: u64) -> u64 {
    if run == u64::MAX {
        0
    } else {
        (run + 1) as u64
    }
}

/// The mathematical value of a `SupervisorHandle`.
pub struct SupervisorView {
    /// The run that owns the builder process, if one does.
    pub active: Option<u64>,
    /// The number of the run that was started last.
    pub last_run: u64,
}

/// Owns the lifecycle of the builder process's runs: at most one run is active
/// at a time, and each run carries its own number so that whatever a finished
/// or cancelled run still sends can be told apart and ignored.
pub struct SupervisorHandle {
    active: Option<u64>,
    last_run: u64,
}

impl View for SupervisorHandle {
    type V = SupervisorView;

    closed spec fn view(&self) -> SupervisorView {
        SupervisorView { active: self.active, last_run: self.last_run }
    }
}

impl SupervisorHandle {
    /// Only the run started last can be active.
    pub open spec fn wf(&self) -> bool {
        self@.active is Some ==> self@.active->0 == self@.last_run
    }

    pub fn new() -> (r: SupervisorHandle)
        ensures
            r@ == (SupervisorView { active: None, last_run: 0 }),
            r.wf(),
    {
        SupervisorHandle { active: None, last_run: 0 }
    }

    /// Starts a new run. Returns its number, and the run that it supersedes, if
    /// one was active: that run's process is to be terminated before the new
    /// one is launched.
    pub fn start(&mut self) -> (r: (u64, Option<u64>))
        requires
            old(self).wf(),
        ensures
            r.0 == next_run(old(self)@.last_run),
            r.1 == old(self)@.active,
            r.1 != Some(r.0),
            final(self)@ == (SupervisorView { active: Some(r.0), last_run: r.0 }),
            final(self).wf(),
    {
        let superseded = self.active;
        let run = if self.last_run == u64::MAX {
            0
        } else {
            self.last_run + 1
        };
        self.active = Some(run);
        self.last_run = run;
        (run, superseded)
    }

    /// Ends the active run, if there is one, and returns it: its process is to
    /// be terminated. Without an active run nothing changes.
    pub fn stop(&mut self) -> (r: Option<u64>)
        requires
            old(self).wf(),
        ensures
            r == old(self)@.active,
            final(self)@ == (SupervisorView { active: None, last_run: old(self)@.last_run }),
            final(self).wf(),
    {
        let stopped = self.active;
        self.active = None;
        stopped
    }

    /// Whether run `run` is the active one, so that what it reports counts.
    pub fn is_current(&self, run: u64) -> (r: bool)
        ensures
            r == (self@.active == Some(run)),
    {
        match self.active {
            Some(active) => active == run,
            None => false,
        }
    }

    pub fn active(&self) -> (r: Option<u64>)
        ensures
            r == self@.active,
    {
        self.active
    }
}

} // verus!
