//! Task bodies, as decision steps. Each worker task's perpetual loop is
//! "toggle one output, then sleep a fixed number of ticks"; one call of its
//! routine is one turn of that loop: it blocks the task through the blocking
//! primitive and returns the output pin the board port must toggle. The idle
//! task does nothing and never blocks.

use vstd::prelude::*;

verus! {

use crate::consts::BLOCKED;
use crate::scheduler::{Kernel, TaskControlBlock};

/// Effect of one turn of a worker task's loop on the scheduler state: the
/// calling task is blocked until "now plus `d`" and a switch is requested;
/// nothing else moves.
pub open spec fn blocked_self(k0: Kernel, k1: Kernel, d: u32) -> bool {
    &&& k1.tasks@ == k0.tasks@.update(
        k0.current_task as int,
        (TaskControlBlock {
            block_count: k0.tick_count.wrapping_add(d),
            current_state: BLOCKED,
            ..k0.tasks@[k0.current_task as int]
        }),
    )
    &&& k1.pendsv_pending
    &&& k1.current_task == k0.current_task
    &&& k1.tick_count == k0.tick_count
    &&& k1.stacks@ == k0.stacks@
}

/// One turn of task 1: toggle output pin 12, then sleep 2 ticks.
pub fn task1_routine(k: &mut Kernel) -> (pin: u8)
    requires
        old(k).table_wf(),
        old(k).current_task == 1,
    ensures
        pin == 12,
        final(k).table_wf(),
        blocked_self(*old(k), *final(k), 2),
        old(k).wf() ==> final(k).wf(),
{
    k.task_delay(2);
    12
}

/// One turn of task 2: toggle output pin 13, then sleep 4 ticks.
pub fn task2_routine(k: &mut Kernel) -> (pin: u8)
    requires
        old(k).table_wf(),
        old(k).current_task == 2,
    ensures
        pin == 13,
        final(k).table_wf(),
        blocked_self(*old(k), *final(k), 4),
        old(k).wf() ==> final(k).wf(),
{
    k.task_delay(4);
    13
}

/// One turn of task 3: toggle output pin 14, then sleep 6 ticks.
pub fn task3_routine(k: &mut Kernel) -> (pin: u8)
    requires
        old(k).table_wf(),
        old(k).current_task == 3,
    ensures
        pin == 14,
        final(k).table_wf(),
        blocked_self(*old(k), *final(k), 6),
        old(k).wf() ==> final(k).wf(),
{
    k.task_delay(6);
    14
}

/// One turn of task 4: toggle output pin 15, then sleep 8 ticks.
pub fn task4_routine(k: &mut Kernel) -> (pin: u8)
    requires
        old(k).table_wf(),
        old(k).current_task == 4,
    ensures
        pin == 15,
        final(k).table_wf(),
        blocked_self(*old(k), *final(k), 8),
        old(k).wf() ==> final(k).wf(),
{
    k.task_delay(8);
    15
}

/// One turn of the idle task: no side effects, and in particular no
/// blocking; it only fills time until some task becomes runnable.
pub fn idle_routine(k: &mut Kernel)
    ensures
        *final(k) == *old(k),
{
}

} // verus!
