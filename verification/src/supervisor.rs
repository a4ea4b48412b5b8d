//! Task supervisor: a flat set of long-running loops, observed until they
//! end. One designated task — the live-event listener — is restarted on
//! early exit, with a monotonically increasing restart counter; every other
//! task terminates permanently.

use vstd::prelude::*;

verus! {

/// One supervised task: its name and whether an early exit restarts it.
#[derive(Debug, Clone)]
pub struct TaskSpec {
    pub name: String,
    pub restart: bool,
}

/// What the supervisor does when a task exits.
#[derive(Debug, Clone, Copy, PartialEq, Eq, Structural)]
pub enum ExitDirective {
    /// Start the task again; only the designated listener gets this.
    Restart,
    /// Log the outcome and let the task stay down.
    Forget,
}

/// The supervisor's bookkeeping: the registered tasks, which are still
/// running, and how many restarts have been issued.
pub struct Supervisor {
    pub tasks: Vec<TaskSpec>,
    pub running: Vec<bool>,
    pub restart_count: u64,
}

impl Supervisor {
    pub open spec fn wf(&self) -> bool {
        self.tasks@.len() == self.running@.len()
    }

    /// A supervisor with nothing registered and no restart issued.
    pub fn new() -> (s: Supervisor)
        ensures
            s.wf(),
            s.tasks@.len() == 0,
            s.restart_count == 0,
    {
        Supervisor { tasks: Vec::new(), running: Vec::new(), restart_count: 0 }
    }

    /// Register one long-running task; it starts out running. Returns its
    /// slot.
    pub fn add_runable(&mut self, name: String, restart: bool) -> (i: usize)
        requires
            old(self).wf(),
        ensures
            final(self).wf(),
            i == old(self).tasks@.len(),
            final(self).tasks@ == old(self).tasks@.push((TaskSpec { name, restart })),
            final(self).running@ == old(self).running@.push(true),
            final(self).restart_count == old(self).restart_count,
    {
        let i = self.tasks.len();
        self.tasks.push(TaskSpec { name, restart });
        self.running.push(true);
        i
    }

    /// A task ended. The designated listener is restarted — its counter
    /// ticks up, it stays running; any other task is left down for good.
    pub fn on_task_exit(&mut self, i: usize) -> (d: ExitDirective)
        requires
            old(self).wf(),
            i < old(self).tasks@.len(),
            old(self).restart_count < u64::MAX,
        ensures
            final(self).wf(),
            final(self).tasks@ == old(self).tasks@,
            d == if old(self).tasks@[i as int].restart {
                ExitDirective::Restart
            } else {
                ExitDirective::Forget
            },
            final(self).restart_count == if old(self).tasks@[i as int].restart {
                old(self).restart_count + 1
            } else {
                old(self).restart_count as int
            },
            final(self).running@ == old(self).running@.update(
                i as int,
                old(self).tasks@[i as int].restart,
            ),
    {
        if self.tasks[i].restart {
            self.restart_count = self.restart_count + 1;
            self.running[i] = true;
            proof {
                assert(final(self).running@ =~= old(self).running@.update(i as int, true));
            }
            ExitDirective::Restart
        } else {
            self.running[i] = false;
            ExitDirective::Forget
        }
    }

    /// Whether every supervised task has exited: the process as a whole runs
    /// until this holds.
    pub fn all_done(&self) -> (r: bool)
        ensures
            r == (forall|j: int| 0 <= j < self.running@.len() ==> !(#[trigger] self.running@[j])),
    {
        let n = self.running.len();
        let mut k: usize = 0;
        while k < n
            invariant
                0 <= k <= n,
                n == self.running@.len(),
                forall|j: int| 0 <= j < k ==> !(#[trigger] self.running@[j]),
            decreases n - k,
        {
            if self.running[k] {
                return false;
            }
            k += 1;
        }
        true
    }
}

} // verus!
