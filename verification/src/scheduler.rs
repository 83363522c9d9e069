//! Task control table, scheduler state and the scheduling operations: the
//! round-robin selection, the blocking primitive and the wake-up scan.

use vstd::prelude::*;

verus! {

use vstd::arithmetic::div_mod::lemma_add_mod_noop;

use crate::consts::{
    BLOCKED, IDLE_T_STACK_START, NUM_TASKS, RUNNING, TASK1_STACK_START, TASK2_STACK_START,
    TASK3_STACK_START, TASK4_STACK_START, saved_sp_wf, stack_top,
};
use crate::stacks::TaskStacks;

/// Identity of a task's entry routine. The bootstrap layer maps each variant
/// to the routine it dispatches; the saved-context frame stores its token.
#[derive(Clone, Copy, PartialEq, Eq, Structural, Debug)]
pub enum TaskHandler {
    Idle,
    Task1,
    Task2,
    Task3,
    Task4,
}

/// Token written into the resume-address slot of a synthesized frame.
pub open spec fn handler_token_spec(h: TaskHandler) -> u32 {
    match h {
        TaskHandler::Idle => 0,
        TaskHandler::Task1 => 1,
        TaskHandler::Task2 => 2,
        TaskHandler::Task3 => 3,
        TaskHandler::Task4 => 4,
    }
}

/// Executable form of `handler_token_spec`.
pub fn handler_token(h: TaskHandler) -> (t: u32)
    ensures
        t == handler_token_spec(h),
{
    match h {
        TaskHandler::Idle => 0,
        TaskHandler::Task1 => 1,
        TaskHandler::Task2 => 2,
        TaskHandler::Task3 => 3,
        TaskHandler::Task4 => 4,
    }
}

/// Per-task record: the single source of truth for scheduling decisions.
#[derive(Clone, Copy, PartialEq, Eq, Structural, Debug)]
pub struct TaskControlBlock {
    /// Saved top-of-stack address while the task is not executing.
    pub psp_value: u32,
    /// Tick value at which a blocked task becomes runnable again.
    pub block_count: u32,
    /// `RUNNING` or `BLOCKED`.
    pub current_state: u8,
    /// The task's entry routine, used once at bootstrap.
    pub task_handler: TaskHandler,
}

/// The task table entry the system boots with.
pub open spec fn boot_tcb(i: int) -> TaskControlBlock {
    TaskControlBlock {
        psp_value: stack_top(i) as u32,
        block_count: 0,
        current_state: RUNNING,
        task_handler: handler_of(i),
    }
}

/// Entry routine of task `i`.
pub open spec fn handler_of(i: int) -> TaskHandler {
    if i == 1 {
        TaskHandler::Task1
    } else if i == 2 {
        TaskHandler::Task2
    } else if i == 3 {
        TaskHandler::Task3
    } else if i == 4 {
        TaskHandler::Task4
    } else {
        TaskHandler::Idle
    }
}

/// The whole scheduler state: task table, current-task index, global tick
/// counter, the pending-switch request and the stack memory. The two trap
/// handlers and the blocking primitive are the only mutators.
pub struct Kernel {
    pub tasks: Vec<TaskControlBlock>,
    pub current_task: usize,
    pub tick_count: u32,
    pub pendsv_pending: bool,
    pub stacks: TaskStacks,
}

/// Index the round-robin scan settles on: starting at `pos` it advances
/// `fuel` times at most, returning the first index that is runnable and not
/// the idle task, and the idle index 0 once the fuel is spent.
pub open spec fn scan_next(tasks: Seq<TaskControlBlock>, pos: int, fuel: nat) -> int
    decreases fuel,
{
    if fuel == 0 {
        0
    } else if tasks[pos].current_state == RUNNING && pos != 0 {
        pos
    } else {
        scan_next(tasks, (pos + 1) % (NUM_TASKS as int), (fuel - 1) as nat)
    }
}

/// The task the Scheduler Core selects: the first runnable non-idle index in
/// wrap-around order after `current`, or the idle index 0 as last resort.
pub open spec fn next_task_spec(tasks: Seq<TaskControlBlock>, current: int) -> int {
    scan_next(tasks, (current + 1) % (NUM_TASKS as int), NUM_TASKS as nat)
}

impl Kernel {
    /// Shape of the scheduler state: full table, a valid current index and
    /// stack memory of the fixed size.
    pub open spec fn table_wf(&self) -> bool {
        &&& self.tasks@.len() == NUM_TASKS as int
        &&& self.current_task < NUM_TASKS
        &&& self.stacks.wf()
    }

    /// Full well-formedness: on top of the shape, every saved stack pointer
    /// carries a whole context frame inside its own task's stack region.
    pub open spec fn wf(&self) -> bool {
        &&& self.table_wf()
        &&& forall|i: int|
            0 <= i < NUM_TASKS as int ==> saved_sp_wf(
                i,
                #[trigger] self.tasks@[i].psp_value as int,
            )
    }

    /// The state the system boots with: all tasks runnable, stack pointers at
    /// the tops of their regions, task 1 current, zeroed stack memory.
    pub fn new() -> (k: Kernel)
        ensures
            k.table_wf(),
            forall|i: int| 0 <= i < NUM_TASKS as int ==> k.tasks@[i] == boot_tcb(i),
            k.current_task == 1,
            k.tick_count == 0,
            !k.pendsv_pending,
            forall|m: int| 0 <= m < k.stacks@.len() ==> k.stacks@[m] == 0u32,
    {
        let mut tasks: Vec<TaskControlBlock> = Vec::new();
        tasks.push(
            TaskControlBlock {
                psp_value: IDLE_T_STACK_START,
                block_count: 0,
                current_state: RUNNING,
                task_handler: TaskHandler::Idle,
            },
        );
        tasks.push(
            TaskControlBlock {
                psp_value: TASK1_STACK_START,
                block_count: 0,
                current_state: RUNNING,
                task_handler: TaskHandler::Task1,
            },
        );
        tasks.push(
            TaskControlBlock {
                psp_value: TASK2_STACK_START,
                block_count: 0,
                current_state: RUNNING,
                task_handler: TaskHandler::Task2,
            },
        );
        tasks.push(
            TaskControlBlock {
                psp_value: TASK3_STACK_START,
                block_count: 0,
                current_state: RUNNING,
                task_handler: TaskHandler::Task3,
            },
        );
        tasks.push(
            TaskControlBlock {
                psp_value: TASK4_STACK_START,
                block_count: 0,
                current_state: RUNNING,
                task_handler: TaskHandler::Task4,
            },
        );
        Kernel {
            tasks,
            current_task: 1,
            tick_count: 0,
            pendsv_pending: false,
            stacks: TaskStacks::new(),
        }
    }

    /// Saved stack pointer of the task presently marked current.
    pub fn get_psp_value(&self) -> (psp: u32)
        requires
            self.table_wf(),
        ensures
            psp == self.tasks@[self.current_task as int].psp_value,
    {
        self.tasks[self.current_task].psp_value
    }

    /// Store the outgoing task's stack pointer in its own record.
    pub fn set_psp_value(&mut self, task_psp: u32)
        requires
            old(self).table_wf(),
        ensures
            final(self).table_wf(),
            final(self).tasks@ == old(self).tasks@.update(
                old(self).current_task as int,
                (TaskControlBlock {
                    psp_value: task_psp,
                    ..old(self).tasks@[old(self).current_task as int]
                }),
            ),
            final(self).current_task == old(self).current_task,
            final(self).tick_count == old(self).tick_count,
            final(self).pendsv_pending == old(self).pendsv_pending,
            final(self).stacks@ == old(self).stacks@,
    {
        let mut tcb = self.tasks[self.current_task];
        tcb.psp_value = task_psp;
        let cur = self.current_task;
        self.tasks.set(cur, tcb);
    }

    /// Request a context switch. The hardware port pends the low-priority
    /// switch trap from this flag; taking the trap clears it again.
    pub fn trig_pendsv(&mut self)
        ensures
            *final(self) == (Kernel { pendsv_pending: true, ..*old(self) }),
    {
        self.pendsv_pending = true;
    }

    /// Scheduler Core: round-robin selection of the next task to run. Scans
    /// at most `NUM_TASKS` indices after the current one in ascending
    /// wrap-around order; the idle task is selected only as a last resort.
    pub fn update_next_task(&mut self)
        requires
            old(self).table_wf(),
        ensures
            final(self).table_wf(),
            final(self).current_task as int == next_task_spec(
                old(self).tasks@,
                old(self).current_task as int,
            ),
            final(self).tasks@ == old(self).tasks@,
            final(self).tick_count == old(self).tick_count,
            final(self).pendsv_pending == old(self).pendsv_pending,
            final(self).stacks@ == old(self).stacks@,
            old(self).wf() ==> final(self).wf(),
    {
        let ghost c0 = old(self).current_task as int;
        let ghost t = old(self).tasks@;
        let mut found_task = false;
        let mut n: usize = 0;
        while n < NUM_TASKS && !found_task
            invariant
                self.table_wf(),
                self.tasks@ == t,
                self.tick_count == old(self).tick_count,
                self.pendsv_pending == old(self).pendsv_pending,
                self.stacks@ == old(self).stacks@,
                self.stacks.wf(),
                0 <= c0 < NUM_TASKS as int,
                n <= NUM_TASKS,
                !found_task ==> self.current_task as int == (c0 + n as int) % (NUM_TASKS as int),
                !found_task ==> next_task_spec(t, c0) == scan_next(
                    t,
                    (c0 + n as int + 1) % (NUM_TASKS as int),
                    (NUM_TASKS - n) as nat,
                ),
                found_task ==> self.current_task as int == next_task_spec(t, c0),
            decreases 2 * (NUM_TASKS - n) + (if found_task { 0int } else { 1int }),
        {
            proof {
                lemma_add_mod_noop(c0 + n as int, 1, NUM_TASKS as int);
            }
            self.current_task = (self.current_task + 1) % NUM_TASKS;
            if self.tasks[self.current_task].current_state == RUNNING && self.current_task != 0 {
                found_task = true;
            } else {
                n += 1;
            }
        }
        if !found_task {
            self.current_task = 0;
        }
    }

    /// The blocking primitive. A non-idle caller records its wake tick as
    /// "now plus `tick_to_delay`" (the counter wraps at the integer width),
    /// marks itself blocked and requests a switch. The idle task never
    /// blocks: called while the idle task is current, this does nothing.
    pub fn task_delay(&mut self, tick_to_delay: u32)
        requires
            old(self).table_wf(),
        ensures
            final(self).table_wf(),
            old(self).current_task == 0 ==> *final(self) == *old(self),
            old(self).current_task != 0 ==> final(self).tasks@ == old(self).tasks@.update(
                old(self).current_task as int,
                (TaskControlBlock {
                    block_count: old(self).tick_count.wrapping_add(tick_to_delay),
                    current_state: BLOCKED,
                    ..old(self).tasks@[old(self).current_task as int]
                }),
            ),
            old(self).current_task != 0 ==> final(self).pendsv_pending,
            final(self).current_task == old(self).current_task,
            final(self).tick_count == old(self).tick_count,
            final(self).stacks@ == old(self).stacks@,
            old(self).current_task != 0 ==> final(self).pendsv_pending == true,
            old(self).current_task == 0 ==> final(self).pendsv_pending == old(
                self,
            ).pendsv_pending,
            old(self).wf() ==> final(self).wf(),
    {
        if self.current_task != 0 {
            let mut tcb = self.tasks[self.current_task];
            tcb.block_count = self.tick_count.wrapping_add(tick_to_delay);
            tcb.current_state = BLOCKED;
            let cur = self.current_task;
            self.tasks.set(cur, tcb);
            self.trig_pendsv();
        }
    }

    /// Wake-up scan of the Tick Service: every blocked task whose recorded
    /// wake tick equals the counter right now becomes runnable; equality, not
    /// "has passed", decides.
    pub fn check_blocked_tasks(&mut self)
        requires
            old(self).table_wf(),
        ensures
            final(self).table_wf(),
            final(self).tasks@.len() == old(self).tasks@.len(),
            forall|i: int|
                0 <= i < old(self).tasks@.len() ==> final(self).tasks@[i] == (TaskControlBlock {
                    current_state: woken_state(old(self).tasks@[i], old(self).tick_count),
                    ..old(self).tasks@[i]
                }),
            final(self).current_task == old(self).current_task,
            final(self).tick_count == old(self).tick_count,
            final(self).pendsv_pending == old(self).pendsv_pending,
            final(self).stacks@ == old(self).stacks@,
            old(self).wf() ==> final(self).wf(),
    {
        let mut task: usize = 0;
        while task < NUM_TASKS
            invariant
                self.table_wf(),
                self.tick_count == old(self).tick_count,
                self.current_task == old(self).current_task,
                self.pendsv_pending == old(self).pendsv_pending,
                self.stacks@ == old(self).stacks@,
                task <= NUM_TASKS,
                forall|i: int|
                    0 <= i < task as int ==> self.tasks@[i] == (TaskControlBlock {
                        current_state: woken_state(old(self).tasks@[i], old(self).tick_count),
                        ..old(self).tasks@[i]
                    }),
                forall|i: int|
                    task as int <= i < NUM_TASKS as int ==> self.tasks@[i] == old(self).tasks@[i],
            decreases NUM_TASKS - task,
        {
            if self.tasks[task].current_state == BLOCKED {
                if self.tasks[task].block_count == self.tick_count {
                    let mut tcb = self.tasks[task];
                    tcb.current_state = RUNNING;
                    self.tasks.set(task, tcb);
                }
            }
            task += 1;
        }
    }
}

/// State of a task record after a tick brought the counter to `tick_now`.
pub open spec fn woken_state(t: TaskControlBlock, tick_now: u32) -> u8 {
    if t.current_state == BLOCKED && t.block_count == tick_now {
        RUNNING
    } else {
        t.current_state
    }
}

/// The scan reads nothing but the tasks' states.
proof fn lemma_scan_states_only(
    t1: Seq<TaskControlBlock>,
    t2: Seq<TaskControlBlock>,
    pos: int,
    fuel: nat,
)
    requires
        t1.len() == NUM_TASKS as int,
        t2.len() == NUM_TASKS as int,
        0 <= pos < NUM_TASKS as int,
        forall|i: int|
            0 <= i < NUM_TASKS as int ==> t1[i].current_state == #[trigger] t2[i].current_state,
    ensures
        scan_next(t1, pos, fuel) == scan_next(t2, pos, fuel),
    decreases fuel,
{
    if fuel > 0 {
        lemma_scan_states_only(t1, t2, (pos + 1) % (NUM_TASKS as int), (fuel - 1) as nat);
    }
}

/// The selection depends only on the tasks' states, not on their saved stack
/// pointers or wake ticks.
pub proof fn lemma_next_task_states_only(
    t1: Seq<TaskControlBlock>,
    t2: Seq<TaskControlBlock>,
    current: int,
)
    requires
        t1.len() == NUM_TASKS as int,
        t2.len() == NUM_TASKS as int,
        0 <= current < NUM_TASKS as int,
        forall|i: int|
            0 <= i < NUM_TASKS as int ==> t1[i].current_state == #[trigger] t2[i].current_state,
    ensures
        next_task_spec(t1, current) == next_task_spec(t2, current),
{
    lemma_scan_states_only(t1, t2, (current + 1) % (NUM_TASKS as int), NUM_TASKS as nat);
}

/// The scan selects the idle task when no other task is runnable.
proof fn lemma_scan_no_runnable(tasks: Seq<TaskControlBlock>, pos: int, fuel: nat)
    requires
        tasks.len() == NUM_TASKS as int,
        0 <= pos < NUM_TASKS as int,
        forall|i: int| 1 <= i < NUM_TASKS as int ==> tasks[i].current_state != RUNNING,
    ensures
        scan_next(tasks, pos, fuel) == 0,
    decreases fuel,
{
    if fuel > 0 {
        lemma_scan_no_runnable(tasks, (pos + 1) % (NUM_TASKS as int), (fuel - 1) as nat);
    }
}

/// Idle fallback: when every non-idle task is blocked, the Scheduler Core
/// selects index 0, whatever the current task is.
pub proof fn lemma_idle_fallback(tasks: Seq<TaskControlBlock>, current: int)
    requires
        tasks.len() == NUM_TASKS as int,
        0 <= current < NUM_TASKS as int,
        forall|i: int| 1 <= i < NUM_TASKS as int ==> tasks[i].current_state != RUNNING,
    ensures
        next_task_spec(tasks, current) == 0,
{
    lemma_scan_no_runnable(tasks, (current + 1) % (NUM_TASKS as int), NUM_TASKS as nat);
}

/// Steps the rotation takes from `current` before it reaches `i`: 1 for the
/// immediate successor, up to `NUM_TASKS` for `current` itself.
pub open spec fn rotation_distance(current: int, i: int) -> int {
    ((i - current - 1) % (NUM_TASKS as int)) + 1
}

/// Within its fuel, the scan lands on a runnable non-idle index at least as
/// close to the scan origin as any runnable non-idle index is.
proof fn lemma_scan_finds_first(tasks: Seq<TaskControlBlock>, pos: int, fuel: nat, i: int)
    requires
        tasks.len() == NUM_TASKS as int,
        0 <= pos < NUM_TASKS as int,
        1 <= i < NUM_TASKS as int,
        tasks[i].current_state == RUNNING,
        (i - pos) % (NUM_TASKS as int) < fuel as int,
    ensures
        ({
            let n = scan_next(tasks, pos, fuel);
            &&& 1 <= n < NUM_TASKS as int
            &&& tasks[n].current_state == RUNNING
            &&& (n - pos) % (NUM_TASKS as int) <= (i - pos) % (NUM_TASKS as int)
        }),
    decreases fuel,
{
    if tasks[pos].current_state == RUNNING && pos != 0 {
    } else {
        assert(i != pos);
        let pos2 = (pos + 1) % (NUM_TASKS as int);
        lemma_scan_finds_first(tasks, pos2, (fuel - 1) as nat, i);
    }
}

/// Round-robin ordering, the general form: the selected task is runnable and
/// no runnable non-idle task sits strictly between the current task and the
/// selection; nothing runnable is skipped out of order.
pub proof fn lemma_round_robin_no_skip(tasks: Seq<TaskControlBlock>, current: int, i: int)
    requires
        tasks.len() == NUM_TASKS as int,
        0 <= current < NUM_TASKS as int,
        1 <= i < NUM_TASKS as int,
        tasks[i].current_state == RUNNING,
    ensures
        ({
            let n = next_task_spec(tasks, current);
            &&& 1 <= n < NUM_TASKS as int
            &&& tasks[n].current_state == RUNNING
            &&& rotation_distance(current, n) <= rotation_distance(current, i)
        }),
{
    let pos = (current + 1) % (NUM_TASKS as int);
    lemma_scan_finds_first(tasks, pos, NUM_TASKS as nat, i);
}

/// Round-robin ordering on a fully runnable table: from any current task the
/// selection is exactly the next worker in the cycle 1, 2, 3, 4, 1, ...
pub proof fn lemma_round_robin_cycle(tasks: Seq<TaskControlBlock>, current: int)
    requires
        tasks.len() == NUM_TASKS as int,
        0 <= current < NUM_TASKS as int,
        forall|i: int| 1 <= i < NUM_TASKS as int ==> tasks[i].current_state == RUNNING,
    ensures
        next_task_spec(tasks, current) == if 1 <= current < 4 {
            current + 1
        } else {
            1int
        },
{
    if current == 4 {
        assert(scan_next(tasks, 0, 5) == scan_next(tasks, 1, 4));
        assert(scan_next(tasks, 1, 4) == 1);
    }
}

} // verus!
