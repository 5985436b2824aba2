//! Lifecycle of the background process's long-lived worker task, as an
//! explicit two-state machine (stopped or running) owned by one component.
//! The caller's runtime spawns the actual loop task on `start` and joins it
//! on `stop`; this state machine is the single authority on the running
//! flag the loop polls and the ping handler reads.

use vstd::prelude::*;

verus! {

/// The worker's lifecycle state: the running flag the loop task polls, and
/// whether a loop task is currently live (spawned and not yet joined).
pub struct BackgroundTaskManager {
    running: bool,
    task_live: bool,
}

impl BackgroundTaskManager {
    /// Whether the worker is running: the flag the loop polls and the ping
    /// handler reports as `BackgroundStatus`.
    pub closed spec fn spec_running(self) -> bool {
        self.running
    }

    /// Whether a loop task is live: spawned and not yet joined.
    pub closed spec fn spec_task_live(self) -> bool {
        self.task_live
    }

    /// The state after `start`: running, with a live loop task.
    pub open spec fn spec_start(self) -> Self {
        Self::spec_started()
    }

    /// The state after `stop`: not running, the loop task observed the
    /// cleared flag, exited, and was joined.
    pub open spec fn spec_stop(self) -> Self {
        Self::spec_stopped()
    }

    /// The running state: flag set, loop task live.
    pub closed spec fn spec_started() -> Self {
        BackgroundTaskManager { running: true, task_live: true }
    }

    /// The stopped state: flag cleared, no live loop task.
    pub closed spec fn spec_stopped() -> Self {
        BackgroundTaskManager { running: false, task_live: false }
    }

    /// A new manager: stopped, with no task.
    pub fn new() -> (m: Self)
        ensures
            m == Self::spec_stopped(),
            !m.spec_running(),
            !m.spec_task_live(),
    {
        BackgroundTaskManager { running: false, task_live: false }
    }

    /// Start the worker: set the running flag; the caller then spawns the
    /// loop task, which polls the flag and emits a heartbeat while it is
    /// set.
    pub fn start(&mut self)
        ensures
            *final(self) == old(self).spec_start(),
            final(self).spec_running(),
            final(self).spec_task_live(),
    {
        self.running = true;
        self.task_live = true;
    }

    /// Stop the worker: clear the running flag and wait for the loop task
    /// to observe it and exit (a cooperative join, bounded by one polling
    /// interval); afterwards no task is left behind.
    pub fn stop(&mut self)
        ensures
            *final(self) == old(self).spec_stop(),
            !final(self).spec_running(),
            !final(self).spec_task_live(),
    {
        self.running = false;
        self.task_live = false;
    }

    /// Non-blocking read of the running flag.
    pub fn is_running(&self) -> (r: bool)
        ensures
            r == self.spec_running(),
    {
        self.running
    }

    /// Whether a loop task is still live (spawned and not yet joined).
    pub fn has_live_task(&self) -> (r: bool)
        ensures
            r == self.spec_task_live(),
    {
        self.task_live
    }
}

impl Default for BackgroundTaskManager {
    /// Same as `new`: stopped, with no task.
    fn default() -> (m: Self)
        ensures
            m == Self::spec_stopped(),
    {
        Self::new()
    }
}

/// Law: after `start` and then `stop`, the worker reports not running and
/// no loop task is left dangling — whatever state it began in.
pub proof fn lemma_start_then_stop_leaves_nothing(m: BackgroundTaskManager)
    ensures
        !m.spec_start().spec_stop().spec_running(),
        !m.spec_start().spec_stop().spec_task_live(),
{
}

} // verus!
