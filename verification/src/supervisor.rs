//! The process supervisor: an owned registry with one child slot per role
//! (background, UI). Starting a role is idempotent while its child is
//! alive; stopping sends the role's graceful command, waits out the grace
//! window, force-kills the child if it is still alive, and clears the slot
//! unconditionally. The spawn, liveness check, and kill are OS calls made
//! by the caller; every decision between them is here.

use vstd::prelude::*;

use crate::ipc::IpcCommand;
use crate::ipc::BACKGROUND_IPC_PORT;
use crate::ipc::UI_IPC_PORT;

verus! {

/// The role of a child process the supervisor owns.
#[derive(Clone, Copy, Debug, PartialEq, Eq, Structural)]
pub enum ProcessRole {
    /// The background worker process.
    Background,
    /// The UI process.
    Ui,
}

/// What a start request amounts to.
#[derive(Clone, Copy, Debug, PartialEq, Eq, Structural)]
pub enum StartAction {
    /// The recorded child is still alive: starting again is a no-op.
    AlreadyRunning,
    /// No live child for this role: spawn a new one and record it.
    Spawn,
}

/// The supervisor's registry: whether a child handle is recorded for each
/// role. At most one handle per role can ever be recorded, by construction.
pub struct ProcessManager {
    background_recorded: bool,
    ui_recorded: bool,
}

impl ProcessManager {
    /// Whether a child handle is recorded for `role`.
    pub closed spec fn spec_recorded(self, role: ProcessRole) -> bool {
        match role {
            ProcessRole::Background => self.background_recorded,
            ProcessRole::Ui => self.ui_recorded,
        }
    }

    /// What a start request decides, given whether the recorded child is
    /// still alive: a no-op exactly when there is a recorded, live child.
    pub open spec fn spec_plan_start(self, role: ProcessRole, existing_alive: bool) -> StartAction {
        if self.spec_recorded(role) && existing_alive {
            StartAction::AlreadyRunning
        } else {
            StartAction::Spawn
        }
    }

    /// The registry after recording a fresh child for `role`.
    pub closed spec fn spec_record_spawn(self, role: ProcessRole) -> Self {
        match role {
            ProcessRole::Background => ProcessManager { background_recorded: true, ..self },
            ProcessRole::Ui => ProcessManager { ui_recorded: true, ..self },
        }
    }

    /// The registry after a stop of `role` has run to completion: the slot
    /// is cleared unconditionally.
    pub closed spec fn spec_finish_stop(self, role: ProcessRole) -> Self {
        match role {
            ProcessRole::Background => ProcessManager { background_recorded: false, ..self },
            ProcessRole::Ui => ProcessManager { ui_recorded: false, ..self },
        }
    }

    /// A new supervisor: no child recorded for either role.
    pub fn new() -> (m: Self)
        ensures
            !m.spec_recorded(ProcessRole::Background),
            !m.spec_recorded(ProcessRole::Ui),
    {
        ProcessManager { background_recorded: false, ui_recorded: false }
    }

    /// Whether a child handle is recorded for `role`.
    pub fn has_recorded_child(&self, role: ProcessRole) -> (r: bool)
        ensures
            r == self.spec_recorded(role),
    {
        match role {
            ProcessRole::Background => self.background_recorded,
            ProcessRole::Ui => self.ui_recorded,
        }
    }

    /// Decide a start request for `role`. `existing_alive` is the caller's
    /// non-blocking liveness check of the recorded child, meaningful only
    /// when one is recorded. The registry itself does not change: on
    /// `Spawn` the caller launches the executable and, on success, calls
    /// `record_spawn`.
    pub fn plan_start(&self, role: ProcessRole, existing_alive: bool) -> (a: StartAction)
        ensures
            a == self.spec_plan_start(role, existing_alive),
    {
        if self.has_recorded_child(role) && existing_alive {
            StartAction::AlreadyRunning
        } else {
            StartAction::Spawn
        }
    }

    /// Record the freshly spawned child of `role`; the other slot is
    /// untouched. A spawn failure is fatal for that start call and records
    /// nothing.
    pub fn record_spawn(&mut self, role: ProcessRole)
        ensures
            *final(self) == old(self).spec_record_spawn(role),
            final(self).spec_recorded(role),
            forall|other: ProcessRole|
                other != role ==> final(self).spec_recorded(other) == old(self).spec_recorded(
                    other,
                ),
    {
        match role {
            ProcessRole::Background => {
                self.background_recorded = true;
            },
            ProcessRole::Ui => {
                self.ui_recorded = true;
            },
        }
    }

    /// Whether the stop of `role` must fall back to forced termination:
    /// exactly when a child is recorded and the caller's liveness check
    /// after the grace window still finds it alive.
    pub fn needs_force_kill(&self, role: ProcessRole, alive_after_grace: bool) -> (r: bool)
        ensures
            r == (self.spec_recorded(role) && alive_after_grace),
    {
        self.has_recorded_child(role) && alive_after_grace
    }

    /// Finish the stop of `role`: clear its slot unconditionally, whether
    /// the child heeded the graceful command, was force-killed, or was
    /// already gone. The other slot is untouched.
    pub fn finish_stop(&mut self, role: ProcessRole)
        ensures
            *final(self) == old(self).spec_finish_stop(role),
            !final(self).spec_recorded(role),
            forall|other: ProcessRole|
                other != role ==> final(self).spec_recorded(other) == old(self).spec_recorded(
                    other,
                ),
    {
        match role {
            ProcessRole::Background => {
                self.background_recorded = false;
            },
            ProcessRole::Ui => {
                self.ui_recorded = false;
            },
        }
    }
}

/// The graceful-stop command for `role`, sent over the control channel
/// before any forced termination.
pub fn graceful_stop_command(role: ProcessRole) -> (c: IpcCommand)
    ensures
        role is Background ==> c == IpcCommand::StopBackground,
        role is Ui ==> c == IpcCommand::CloseUI,
{
    match role {
        ProcessRole::Background => IpcCommand::StopBackground,
        ProcessRole::Ui => IpcCommand::CloseUI,
    }
}

/// The control port of `role`'s process.
pub fn control_port(role: ProcessRole) -> (p: u16)
    ensures
        role is Background ==> p == BACKGROUND_IPC_PORT,
        role is Ui ==> p == UI_IPC_PORT,
{
    match role {
        ProcessRole::Background => BACKGROUND_IPC_PORT,
        ProcessRole::Ui => UI_IPC_PORT,
    }
}

/// The sibling executable name of `role`'s process, resolved by the caller
/// relative to the supervisor's own executable directory.
pub fn executable_name(role: ProcessRole) -> (r: &'static str)
    ensures
        role is Background ==> r@ == "bong-background.exe"@,
        role is Ui ==> r@ == "bong-ui.exe"@,
{
    match role {
        ProcessRole::Background => "bong-background.exe",
        ProcessRole::Ui => "bong-ui.exe",
    }
}

/// The order in which `stop_all` tears the roles down: the UI first, so
/// the user-visible surface disappears promptly, then the background.
pub fn stop_all_order() -> (r: [ProcessRole; 2])
    ensures
        r@.len() == 2,
        r@[0] == ProcessRole::Ui,
        r@[1] == ProcessRole::Background,
{
    [ProcessRole::Ui, ProcessRole::Background]
}

/// Law: while the recorded child of a role is alive, a second start is a
/// no-op — no spawn, so at most one live child per role — and once the
/// child has exited (or none is recorded), a start spawns exactly one new
/// process.
pub proof fn lemma_start_is_idempotent(m: ProcessManager, role: ProcessRole)
    ensures
        m.spec_recorded(role) ==> m.spec_plan_start(role, true) == StartAction::AlreadyRunning,
        m.spec_plan_start(role, false) == StartAction::Spawn,
        !m.spec_recorded(role) ==> m.spec_plan_start(role, true) == StartAction::Spawn,
{
}

/// Law: a stop always ends with no recorded child for the role — whether
/// the child heeded the graceful command or had to be force-killed — and
/// the other role's slot is untouched.
pub proof fn lemma_stop_guarantees_termination(m: ProcessManager, role: ProcessRole)
    ensures
        !m.spec_finish_stop(role).spec_recorded(role),
        forall|other: ProcessRole|
            other != role ==> m.spec_finish_stop(role).spec_recorded(other) == m.spec_recorded(
                other,
            ),
{
}

} // verus!
