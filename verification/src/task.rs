//! The task subsystem: control blocks, the saved callee-context crossed by
//! the switch routine, and the manager that owns the task array and performs
//! all status transitions.
//!
//! The hardware context switch itself is performed by unverified assembly;
//! the manager decides which switch to perform and reports it as a
//! [`NextTask`] value.

use vstd::prelude::*;

use vstd::string::StringSliceAdditionalSpecFns;

use crate::config::MAX_APP_NUM;
use crate::console::Console;
use crate::schedule::{spec_find_next, scan_ready, yield_step, SchedState};

verus! {

/// Lifecycle state of one task slot.
#[derive(Clone, Copy, PartialEq, Eq, Structural, Debug)]
pub enum TaskStatus {
    UnInit,
    Ready,
    Running,
    Exited,
}

/// Callee-saved register snapshot crossed by the switch routine: the return
/// address, the stack pointer and `s0`-`s11`.
#[derive(Clone, Copy)]
pub struct TaskContext {
    pub ra: usize,
    pub sp: usize,
    pub s: [usize; 12],
}

impl TaskContext {
    /// An all-zero context, for slots that have never run.
    pub fn zero_init() -> (cx: TaskContext)
        ensures
            cx.ra == 0,
            cx.sp == 0,
            forall|i: int| 0 <= i < 12 ==> cx.s@[i] == 0,
    {
        TaskContext { ra: 0, sp: 0, s: [0, 0, 0, 0, 0, 0, 0, 0, 0, 0, 0, 0] }
    }

    /// The context of a freshly initialized task: "returning" from the switch
    /// routine lands in the trap-return trampoline at `restore`, with the
    /// stack pointer just below that task's initial trap context at
    /// `kstack_ptr`.
    pub fn goto_restore(restore: usize, kstack_ptr: usize) -> (cx: TaskContext)
        ensures
            cx.ra == restore,
            cx.sp == kstack_ptr,
            forall|i: int| 0 <= i < 12 ==> cx.s@[i] == 0,
    {
        TaskContext { ra: restore, sp: kstack_ptr, s: [0, 0, 0, 0, 0, 0, 0, 0, 0, 0, 0, 0] }
    }
}

/// One task slot: its status and its saved switch context.
#[derive(Clone, Copy)]
pub struct TaskControlBlock {
    pub task_status: TaskStatus,
    pub task_cx: TaskContext,
}

/// The mutable inside of the task manager.
pub struct TaskManagerInner {
    /// All task slots; only the first `num_app` are used.
    pub tasks: [TaskControlBlock; MAX_APP_NUM],
    /// Index of the current task.
    pub current_task: usize,
}

/// The task manager: the task array and the number of loaded applications.
pub struct TaskManager {
    /// Total number of loaded applications.
    pub num_app: usize,
    /// The task array and the current-task index.
    pub inner: TaskManagerInner,
}

/// What the machine must do after a scheduling decision: switch from the
/// context of slot `prev` into the context of slot `next`, or, when no task
/// is `Ready` any more, ask the firmware to shut down (with success).
#[derive(Clone, Copy, PartialEq, Eq, Structural, Debug)]
pub enum NextTask {
    Switch { prev: usize, next: usize },
    Shutdown,
}

impl TaskManager {
    /// The statuses of all task slots.
    pub open spec fn statuses(self) -> Seq<TaskStatus> {
        self.inner.tasks@.map_values(|t: TaskControlBlock| t.task_status)
    }

    /// The scheduler-visible part of this state.
    pub open spec fn sched(self) -> SchedState {
        SchedState {
            statuses: self.statuses(),
            current: self.inner.current_task as int,
            n: self.num_app as int,
        }
    }

    /// Basic well-formedness: at least one application, no more than the
    /// array holds, and the current index in range.
    pub open spec fn wf(self) -> bool {
        &&& 1 <= self.num_app <= MAX_APP_NUM
        &&& self.inner.current_task < self.num_app
    }

    /// Exactly the current task is `Running`.
    pub open spec fn unique_running(self) -> bool {
        &&& self.statuses()[self.inner.current_task as int] is Running
        &&& forall|i: int|
            0 <= i < MAX_APP_NUM && i != self.inner.current_task ==> !(self.statuses()[i]
                is Running)
    }

    /// Builds the manager at kernel init: task `i` of the `num_app`
    /// applications is `Ready` with a `goto_restore` context whose stack
    /// pointer is `cx_addrs[i]` (the address of that task's initial trap
    /// context, from the loader); the remaining slots stay `UnInit`.
    pub fn new(num_app: usize, restore: usize, cx_addrs: &Vec<usize>) -> (tm: TaskManager)
        requires
            1 <= num_app <= MAX_APP_NUM,
            cx_addrs@.len() == num_app,
        ensures
            tm.wf(),
            tm.num_app == num_app,
            tm.inner.current_task == 0,
            forall|i: int| 0 <= i < num_app ==> tm.statuses()[i] is Ready,
            forall|i: int| 0 <= i < num_app ==> tm.inner.tasks@[i].task_cx.ra == restore,
            forall|i: int| 0 <= i < num_app ==> tm.inner.tasks@[i].task_cx.sp == cx_addrs@[i],
            forall|i: int| num_app <= i < MAX_APP_NUM ==> tm.statuses()[i] is UnInit,
    {
        let zero = TaskControlBlock {
            task_status: TaskStatus::UnInit,
            task_cx: TaskContext::zero_init(),
        };
        let mut tasks: [TaskControlBlock; MAX_APP_NUM] = [
            zero, zero, zero, zero, zero, zero, zero, zero,
            zero, zero, zero, zero, zero, zero, zero, zero,
        ];
        let mut i: usize = 0;
        while i < num_app
            invariant
                i <= num_app,
                num_app <= MAX_APP_NUM,
                cx_addrs@.len() == num_app,
                tasks@.len() == MAX_APP_NUM,
                forall|j: int| 0 <= j < i ==> tasks@[j].task_status is Ready,
                forall|j: int| 0 <= j < i ==> tasks@[j].task_cx.ra == restore,
                forall|j: int| 0 <= j < i ==> tasks@[j].task_cx.sp == cx_addrs@[j],
                forall|j: int| i <= j < MAX_APP_NUM ==> tasks@[j].task_status is UnInit,
            decreases num_app - i,
        {
            let ghost prev = tasks@;
            tasks[i] = TaskControlBlock {
                task_status: TaskStatus::Ready,
                task_cx: TaskContext::goto_restore(restore, cx_addrs[i]),
            };
            proof {
                assert(tasks@ =~= prev.update(i as int, tasks@[i as int]));
                assert(forall|j: int| 0 <= j < MAX_APP_NUM && j != i ==> tasks@[j] == prev[j]);
                assert(tasks@[i as int].task_status is Ready);
                assert(tasks@[i as int].task_cx.ra == restore);
                assert(tasks@[i as int].task_cx.sp == cx_addrs@[i as int]);
            }
            i = i + 1;
        }
        TaskManager { num_app, inner: TaskManagerInner { tasks, current_task: 0 } }
    }

    /// Marks task 0 `Running`; the machine then switches into its context
    /// (with a discarded "previous" slot) and never returns here.
    ///
    /// From the boot state, where no task is `Running` yet, this establishes
    /// the one-running-task invariant.
    pub fn run_first_task(&mut self)
        requires
            old(self).wf(),
            old(self).inner.current_task == 0,
        ensures
            final(self).num_app == old(self).num_app,
            final(self).inner.current_task == 0,
            final(self).inner.tasks@ =~= old(self).inner.tasks@.update(
                0,
                (TaskControlBlock {
                    task_status: TaskStatus::Running,
                    task_cx: old(self).inner.tasks@[0].task_cx,
                }),
            ),
            final(self).wf(),
            (forall|i: int| 0 <= i < MAX_APP_NUM ==> !(old(self).statuses()[i] is Running))
                ==> final(self).unique_running(),
    {
        let cx = self.inner.tasks[0].task_cx;
        self.inner.tasks[0] = TaskControlBlock { task_status: TaskStatus::Running, task_cx: cx };
        assert(self.statuses() =~= old(self).statuses().update(0, TaskStatus::Running));
    }

    /// Moves the current task from `Running` back to `Ready`.
    pub fn mark_current_suspended(&mut self)
        requires
            old(self).wf(),
        ensures
            final(self).num_app == old(self).num_app,
            final(self).inner.current_task == old(self).inner.current_task,
            final(self).inner.tasks@ =~= old(self).inner.tasks@.update(
                old(self).inner.current_task as int,
                (TaskControlBlock {
                    task_status: TaskStatus::Ready,
                    task_cx: old(self).inner.tasks@[old(self).inner.current_task as int].task_cx,
                }),
            ),
    {
        let current = self.inner.current_task;
        let cx = self.inner.tasks[current].task_cx;
        self.inner.tasks[current] = TaskControlBlock {
            task_status: TaskStatus::Ready,
            task_cx: cx,
        };
    }

    /// Moves the current task from `Running` to `Exited`; `Exited` is
    /// terminal.
    pub fn mark_current_exited(&mut self)
        requires
            old(self).wf(),
        ensures
            final(self).num_app == old(self).num_app,
            final(self).inner.current_task == old(self).inner.current_task,
            final(self).inner.tasks@ =~= old(self).inner.tasks@.update(
                old(self).inner.current_task as int,
                (TaskControlBlock {
                    task_status: TaskStatus::Exited,
                    task_cx: old(self).inner.tasks@[old(self).inner.current_task as int].task_cx,
                }),
            ),
    {
        let current = self.inner.current_task;
        let cx = self.inner.tasks[current].task_cx;
        self.inner.tasks[current] = TaskControlBlock {
            task_status: TaskStatus::Exited,
            task_cx: cx,
        };
    }

    /// Round-robin choice of the next task: the first `Ready` slot scanning
    /// upward from the slot after the current one, wrapping around, the
    /// current slot checked last.
    pub fn find_next_task(&self) -> (r: Option<usize>)
        requires
            self.wf(),
        ensures
            match r {
                Some(j) => spec_find_next(
                    self.statuses(),
                    self.inner.current_task as int,
                    self.num_app as int,
                ) == Some(j as int) && j < self.num_app,
                None => spec_find_next(
                    self.statuses(),
                    self.inner.current_task as int,
                    self.num_app as int,
                ) is None,
            },
    {
        let current = self.inner.current_task;
        let n = self.num_app;
        let mut off: usize = 1;
        while off <= n
            invariant
                self.wf(),
                current == self.inner.current_task,
                n == self.num_app,
                1 <= off <= n + 1,
                scan_ready(self.statuses(), current as int, n as int, 1) == scan_ready(
                    self.statuses(),
                    current as int,
                    n as int,
                    off as int,
                ),
            decreases n + 1 - off,
        {
            let id = (current + off) % n;
            if self.inner.tasks[id].task_status == TaskStatus::Ready {
                return Some(id);
            }
            off = off + 1;
        }
        None
    }

    /// Applies the scheduling decision: if some task is `Ready`, marks it
    /// `Running`, makes it current and reports the switch to perform;
    /// otherwise reports that all applications have completed, which the
    /// machine answers with a firmware shutdown (success).
    pub fn run_next_task(&mut self, con: &mut Console) -> (r: NextTask)
        requires
            old(self).wf(),
        ensures
            final(self).num_app == old(self).num_app,
            final(self).wf(),
            match spec_find_next(
                old(self).statuses(),
                old(self).inner.current_task as int,
                old(self).num_app as int,
            ) {
                Some(j) => {
                    &&& r == (NextTask::Switch {
                        prev: old(self).inner.current_task,
                        next: j as usize,
                    })
                    &&& final(self).inner.current_task == j
                    &&& final(self).inner.tasks@ =~= old(self).inner.tasks@.update(
                        j,
                        (TaskControlBlock {
                            task_status: TaskStatus::Running,
                            task_cx: old(self).inner.tasks@[j].task_cx,
                        }),
                    )
                    &&& final(con).bytes@ == old(con).bytes@
                },
                None => {
                    &&& r == NextTask::Shutdown
                    &&& final(self).inner.current_task == old(self).inner.current_task
                    &&& final(self).inner.tasks@ =~= old(self).inner.tasks@
                    &&& final(con).bytes@ == old(con).bytes@
                        + ("All applications completed!").spec_bytes() + seq![10u8]
                },
            },
    {
        match self.find_next_task() {
            Some(next) => {
                let current = self.inner.current_task;
                let cx = self.inner.tasks[next].task_cx;
                self.inner.tasks[next] = TaskControlBlock {
                    task_status: TaskStatus::Running,
                    task_cx: cx,
                };
                self.inner.current_task = next;
                NextTask::Switch { prev: current, next }
            },
            None => {
                con.write_line("All applications completed!".as_bytes());
                NextTask::Shutdown
            },
        }
    }
}

/// Suspends the current task (back to `Ready`) and schedules the next one.
pub fn suspend_current_and_run_next(tm: &mut TaskManager, con: &mut Console) -> (r: NextTask)
    requires
        old(tm).wf(),
    ensures
        final(tm).num_app == old(tm).num_app,
        final(tm).wf(),
        final(tm).sched() == yield_step(old(tm).sched()),
        r == (NextTask::Switch {
            prev: old(tm).inner.current_task,
            next: final(tm).inner.current_task,
        }),
        final(con).bytes@ == old(con).bytes@,
{
    tm.mark_current_suspended();
    proof {
        assert(tm.statuses() =~= old(tm).statuses().update(
            old(tm).inner.current_task as int,
            TaskStatus::Ready,
        ));
        let ghost cur = tm.inner.current_task as int;
        let ghost n = tm.num_app as int;
        assert((cur + n) % n == cur) by (nonlinear_arith)
            requires
                0 <= cur < n,
        ;
        assert(tm.statuses()[(cur + n) % n] is Ready);
        crate::schedule::lemma_scan_finds_some(
            tm.statuses(),
            tm.inner.current_task as int,
            tm.num_app as int,
            1,
            tm.num_app as int,
        );
    }
    let r = tm.run_next_task(con);
    proof {
        assert(tm.sched().statuses =~= yield_step(old(tm).sched()).statuses);
        assert(tm.sched() =~= yield_step(old(tm).sched()));
    }
    r
}

/// Exits the current task (to `Exited`) and schedules the next one; if no
/// task is `Ready` any more the result is `Shutdown`.
pub fn exit_current_and_run_next(tm: &mut TaskManager, con: &mut Console) -> (r: NextTask)
    requires
        old(tm).wf(),
    ensures
        final(tm).num_app == old(tm).num_app,
        final(tm).wf(),
        ({
            let marked = old(tm).statuses().update(
                old(tm).inner.current_task as int,
                TaskStatus::Exited,
            );
            match spec_find_next(
                marked,
                old(tm).inner.current_task as int,
                old(tm).num_app as int,
            ) {
                Some(j) => {
                    &&& r == (NextTask::Switch {
                        prev: old(tm).inner.current_task,
                        next: j as usize,
                    })
                    &&& final(tm).inner.current_task == j
                    &&& final(tm).statuses() =~= marked.update(j, TaskStatus::Running)
                    &&& final(con).bytes@ == old(con).bytes@
                },
                None => {
                    &&& r == NextTask::Shutdown
                    &&& final(tm).statuses() =~= marked
                    &&& final(con).bytes@ == old(con).bytes@
                        + ("All applications completed!").spec_bytes() + seq![10u8]
                },
            }
        }),
{
    tm.mark_current_exited();
    proof {
        assert(tm.statuses() =~= old(tm).statuses().update(
            old(tm).inner.current_task as int,
            TaskStatus::Exited,
        ));
    }
    let r = tm.run_next_task(con);
    proof {
        match spec_find_next(
            old(tm).statuses().update(old(tm).inner.current_task as int, TaskStatus::Exited),
            old(tm).inner.current_task as int,
            old(tm).num_app as int,
        ) {
            Some(j) => {
                assert(tm.statuses() =~= old(tm).statuses().update(
                    old(tm).inner.current_task as int,
                    TaskStatus::Exited,
                ).update(j, TaskStatus::Running));
            },
            None => {},
        }
    }
    r
}

/// Marks task 0 `Running`; the machine then switches into its saved context
/// with a discarded "previous" slot and never returns here.
pub fn run_first_task(tm: &mut TaskManager)
    requires
        old(tm).wf(),
        old(tm).inner.current_task == 0,
    ensures
        final(tm).num_app == old(tm).num_app,
        final(tm).inner.current_task == 0,
        final(tm).inner.tasks@ =~= old(tm).inner.tasks@.update(
            0,
            (TaskControlBlock {
                task_status: TaskStatus::Running,
                task_cx: old(tm).inner.tasks@[0].task_cx,
            }),
        ),
        final(tm).wf(),
        (forall|i: int| 0 <= i < MAX_APP_NUM ==> !(old(tm).statuses()[i] is Running))
            ==> final(tm).unique_running(),
{
    tm.run_first_task();
}

/// A fatal end of the current task: the given line is logged, the task
/// becomes `Exited`, and either the round-robin successor runs or, with
/// nothing `Ready` left, the completion line is logged and the machine
/// shuts down.
pub open spec fn spec_kill_outcome(
    line: Seq<u8>,
    tm0: TaskManager,
    con0: Seq<u8>,
    r: NextTask,
    tm1: TaskManager,
    con1: Seq<u8>,
) -> bool {
    let marked = tm0.statuses().update(tm0.inner.current_task as int, TaskStatus::Exited);
    let logged = con0 + line;
    match spec_find_next(marked, tm0.inner.current_task as int, tm0.num_app as int) {
        Some(j) => {
            &&& r == (NextTask::Switch { prev: tm0.inner.current_task, next: j as usize })
            &&& tm1.inner.current_task == j
            &&& tm1.statuses() =~= marked.update(j, TaskStatus::Running)
            &&& con1 == logged
        },
        None => {
            &&& r == NextTask::Shutdown
            &&& tm1.statuses() =~= marked
            &&& con1 == logged + ("All applications completed!").spec_bytes() + seq![10u8]
        },
    }
}

} // verus!
