//! Fixed layout of the system: task count, stack geometry and the
//! architecture constants of the saved-context frame.

use vstd::prelude::*;

verus! {

/// Bytes reserved for each task's private stack.
pub const TASK_STACK_SIZE: u32 = 1024;
/// Bytes reserved for the handler (scheduler) stack.
pub const SCHEDULER_STACK_SIZE: u32 = 1024;
/// First address of the RAM bank that holds all stacks.
pub const RAM_START_ADDR: u32 = 0x2000_0000;
/// Size of that RAM bank in bytes.
pub const RAM_SIZE_BYTES: u32 = 128 * 1024;

/// Exclusive top of task 1's stack; stacks grow downward from here.
pub const TASK1_STACK_START: u32 = RAM_START_ADDR + RAM_SIZE_BYTES;
pub const TASK2_STACK_START: u32 = TASK1_STACK_START - TASK_STACK_SIZE;
pub const TASK3_STACK_START: u32 = TASK2_STACK_START - TASK_STACK_SIZE;
pub const TASK4_STACK_START: u32 = TASK3_STACK_START - TASK_STACK_SIZE;
pub const IDLE_T_STACK_START: u32 = TASK4_STACK_START - TASK_STACK_SIZE;
pub const SCHEDULER_STACK_START: u32 = IDLE_T_STACK_START - SCHEDULER_STACK_SIZE;

/// Core clock frequency the periodic timer is driven by.
pub const HSI_CLOCK_FREQ_HZ: u32 = 16_000_000;
/// Tick rate the timer is configured to.
pub const SYSTICK_TICK_RATE_HZ: u32 = 1;

/// Number of tasks, the idle task included.
pub const NUM_TASKS: usize = 5;
/// Initial program-status word of a task: only the execution-mode bit is set.
pub const INITIAL_X_PSR: u32 = 0x0100_0000;
/// Exception-return sentinel: resume thread mode on the process stack.
pub const EXC_RETURN_THREAD_PSP: u32 = 0xFFFF_FFFD;

/// Task state: eligible for dispatch.
pub const RUNNING: u8 = 0x1;
/// Task state: excluded from dispatch until its wake tick.
pub const BLOCKED: u8 = 0x0;

/// Bytes of one saved context: r4-r11 plus the eight-word hardware frame.
pub const FRAME_BYTES: u32 = 64;

/// Lowest address of the memory that holds the task stacks.
pub const STACKS_REGION_LOW: u32 = IDLE_T_STACK_START - TASK_STACK_SIZE;
/// One past the highest address of that memory.
pub const STACKS_REGION_HIGH: u32 = TASK1_STACK_START;
/// Number of 32-bit words in the task-stack memory.
pub const STACKS_REGION_WORDS: usize = 1280;

/// Exclusive top of task `i`'s stack region. The idle task (index 0) owns the
/// lowest region; tasks 1 to 4 stack downward from the top of RAM.
pub open spec fn stack_top(i: int) -> int {
    if i == 0 {
        IDLE_T_STACK_START as int
    } else {
        TASK1_STACK_START as int - (i - 1) * (TASK_STACK_SIZE as int)
    }
}

/// Lowest address of task `i`'s stack region.
pub open spec fn stack_low(i: int) -> int {
    stack_top(i) - TASK_STACK_SIZE as int
}

/// A saved stack-pointer value is well formed for task `i` when a full
/// context frame below it lies inside the task's own stack region.
pub open spec fn saved_sp_wf(i: int, sp: int) -> bool {
    &&& sp % 4 == 0
    &&& stack_low(i) <= sp
    &&& sp + FRAME_BYTES as int <= stack_top(i)
}

/// Stack regions of distinct tasks never overlap: they are laid out without
/// gaps from a fixed top of memory downward.
pub proof fn lemma_stack_regions_disjoint(i: int, j: int)
    requires
        0 <= i < NUM_TASKS as int,
        0 <= j < NUM_TASKS as int,
        i != j,
    ensures
        stack_top(i) <= stack_low(j) || stack_top(j) <= stack_low(i),
{
}

/// Every task's stack region lies inside the shared stack memory, and its
/// top is word aligned.
pub proof fn lemma_region_in_bounds(i: int)
    requires
        0 <= i < NUM_TASKS as int,
    ensures
        STACKS_REGION_LOW as int <= stack_low(i),
        stack_top(i) <= STACKS_REGION_HIGH as int,
        stack_top(i) % 4 == 0,
        stack_low(i) % 4 == 0,
{
    if i == 0 {
    } else if i == 1 {
    } else if i == 2 {
    } else if i == 3 {
    } else {
        assert(i == 4);
    }
}

/// Exclusive top of task `i`'s stack region, as the executable address.
pub fn stack_top_addr(i: usize) -> (r: u32)
    requires
        i < NUM_TASKS,
    ensures
        r as int == stack_top(i as int),
{
    if i == 0 {
        IDLE_T_STACK_START
    } else {
        TASK1_STACK_START - ((i as u32) - 1) * TASK_STACK_SIZE
    }
}

} // verus!
