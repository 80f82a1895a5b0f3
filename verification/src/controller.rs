//! The reload controller: the default program, the slot that holds the
//! latest compile outcome of the user shader, and the pending-reload flag.

use vstd::prelude::*;
use crate::outcome::{select, selected, CompileOutcome};
use crate::report::texts;
use crate::watch::{any_change, change_notices, scan, ChangeEvent};

verus! {

/// What a reload controller holds, as contracts speak of it.
pub struct ControllerState<P> {
    /// The program that compiled at startup and is rendered whenever the
    /// user shader is broken. It never changes.
    pub default_program: P,
    /// The outcome of the latest attempt to build the user shader.
    pub active: CompileOutcome<P>,
    /// Whether a change was seen that no rebuild has answered yet.
    pub reload_pending: bool,
}

impl<P> ControllerState<P> {
    /// The state after startup: nothing is pending.
    pub open spec fn initial(default_program: P, first: CompileOutcome<P>) -> Self {
        ControllerState { default_program, active: first, reload_pending: false }
    }

    /// The state after a batch of watcher events: the flag is raised if any
    /// of them is a creation or a write, and stays raised if it was.
    pub open spec fn observed(self, events: Seq<ChangeEvent>) -> Self {
        ControllerState { reload_pending: self.reload_pending || any_change(events), ..self }
    }

    /// The state after a rebuild: its outcome takes the slot whatever the
    /// slot held, and the flag is lowered.
    pub open spec fn installed(self, outcome: CompileOutcome<P>) -> Self {
        ControllerState { active: outcome, reload_pending: false, ..self }
    }

    /// The program to render in this state.
    pub open spec fn program(self) -> P {
        selected(self.active, self.default_program)
    }

    /// Whether the user shader is broken, so that the default is rendered.
    pub open spec fn is_degraded(self) -> bool {
        self.active is Failed
    }
}

/// Owner of the default program and of the active slot.
pub struct ReloadController<P> {
    default_program: P,
    active: CompileOutcome<P>,
    reload_pending: bool,
}

impl<P> View for ReloadController<P> {
    type V = ControllerState<P>;

    closed spec fn view(&self) -> ControllerState<P> {
        ControllerState {
            default_program: self.default_program,
            active: self.active,
            reload_pending: self.reload_pending,
        }
    }
}

impl<P> ReloadController<P> {
    /// A controller for a default program that compiled, with the outcome of
    /// the first build of the user shader in the active slot.
    pub fn new(default_program: P, first: CompileOutcome<P>) -> (controller: Self)
        ensures
            controller@ == ControllerState::initial(default_program, first),
    {
        ReloadController { default_program, active: first, reload_pending: false }
    }

    /// Takes in one drain of the watcher's queue. Any number of creations
    /// and writes raises the one flag; the result holds a log line for each.
    pub fn observe(&mut self, events: &Vec<ChangeEvent>) -> (notices: Vec<String>)
        ensures
            final(self)@ == old(self)@.observed(events@),
            texts(notices@) == change_notices(events@),
    {
        let report = scan(events);
        if report.changed {
            self.reload_pending = true;
        }
        report.notices
    }

    /// Whether a rebuild is due.
    pub fn reload_pending(&self) -> (pending: bool)
        ensures
            pending == self@.reload_pending,
    {
        self.reload_pending
    }

    /// Stores the outcome of a rebuild in the active slot, whatever the slot
    /// held before, and lowers the flag. The result is what must reach the
    /// operator's log: the diagnostic text of a failure, nothing for a
    /// success.
    pub fn install(&mut self, outcome: CompileOutcome<P>) -> (report: Vec<String>)
        ensures
            final(self)@ == old(self)@.installed(outcome),
            texts(report@) == outcome.report(),
    {
        let report = outcome.report_lines();
        self.active = outcome;
        self.reload_pending = false;
        report
    }

    /// The program to render: the user's if its latest build succeeded, the
    /// default otherwise.
    pub fn select(&self) -> (program: &P)
        ensures
            *program == self@.program(),
    {
        select(&self.active, &self.default_program)
    }

    /// The outcome of the latest build of the user shader.
    pub fn outcome(&self) -> (outcome: &CompileOutcome<P>)
        ensures
            *outcome == self@.active,
    {
        &self.active
    }

    /// Whether the default program stands in for a broken user shader.
    pub fn is_degraded(&self) -> (degraded: bool)
        ensures
            degraded == self@.is_degraded(),
    {
        !self.active.is_ready()
    }
}

} // verus!
