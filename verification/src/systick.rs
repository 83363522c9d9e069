//! Tick Service: the periodic interrupt that advances the global time base,
//! wakes delayed tasks and requests a context switch.

use vstd::prelude::*;

verus! {

use vstd::arithmetic::div_mod::lemma_div_non_zero;

use crate::consts::{BLOCKED, HSI_CLOCK_FREQ_HZ, RUNNING};
use crate::scheduler::{Kernel, TaskControlBlock, woken_state};

impl Kernel {
    /// One firing of the periodic tick: advance the counter by exactly one
    /// (wrapping at the integer width), make every blocked task whose wake
    /// tick equals the new counter runnable, and request a context switch.
    pub fn systick_handler(&mut self)
        requires
            old(self).table_wf(),
        ensures
            final(self).table_wf(),
            final(self).tick_count == old(self).tick_count.wrapping_add(1),
            final(self).tasks@.len() == old(self).tasks@.len(),
            forall|i: int|
                0 <= i < old(self).tasks@.len() ==> final(self).tasks@[i] == (TaskControlBlock {
                    current_state: woken_state(
                        old(self).tasks@[i],
                        old(self).tick_count.wrapping_add(1),
                    ),
                    ..old(self).tasks@[i]
                }),
            final(self).pendsv_pending,
            final(self).current_task == old(self).current_task,
            final(self).stacks@ == old(self).stacks@,
            old(self).wf() ==> final(self).wf(),
    {
        self.tick_count = self.tick_count.wrapping_add(1);
        self.check_blocked_tasks();
        self.trig_pendsv();
    }
}

/// Wake exactness: a task blocked until tick `wake` is made runnable by the
/// tick that brings the counter to exactly `wake`, and by no other tick; any
/// earlier tick leaves it blocked.
pub proof fn lemma_wake_exactness(t: TaskControlBlock, tick_now: u32, wake: u32)
    requires
        t.current_state == BLOCKED,
        t.block_count == wake,
    ensures
        woken_state(t, tick_now) == RUNNING <==> tick_now == wake,
        tick_now != wake ==> woken_state(t, tick_now) == BLOCKED,
{
}

/// State of a task record after `n` further firings of the tick service
/// starting from counter value `start`, with nothing else touching the
/// record: each firing advances the counter by one and applies the wake rule.
pub open spec fn state_after_ticks(t: TaskControlBlock, start: u32, n: nat) -> TaskControlBlock
    decreases n,
{
    if n == 0 {
        t
    } else {
        let prev = state_after_ticks(t, start, (n - 1) as nat);
        TaskControlBlock { current_state: woken_state(prev, start.wrapping_add(n as u32)), ..prev }
    }
}

/// Wake exactness over a whole run of ticks: left alone otherwise, a task
/// blocked until a future tick stays blocked through every firing that
/// leaves the counter short of its wake tick, and the firing that brings the
/// counter to exactly that value makes it runnable — precisely then, not
/// before.
pub proof fn lemma_wake_exactness_run(t: TaskControlBlock, start: u32, n: nat)
    requires
        t.current_state == BLOCKED,
        start < t.block_count,
        start as int + n <= t.block_count as int,
    ensures
        state_after_ticks(t, start, n).block_count == t.block_count,
        state_after_ticks(t, start, n).current_state == if start as int + n
            == t.block_count as int {
            RUNNING
        } else {
            BLOCKED
        },
    decreases n,
{
    if n > 0 {
        lemma_wake_exactness_run(t, start, (n - 1) as nat);
    }
}

/// Reload value for the periodic timer: one tick every
/// `HSI_CLOCK_FREQ_HZ / tick_rate_hz` core cycles.
pub fn systick_reload_value(tick_rate_hz: u32) -> (r: u32)
    requires
        0 < tick_rate_hz <= HSI_CLOCK_FREQ_HZ,
    ensures
        r == HSI_CLOCK_FREQ_HZ / tick_rate_hz - 1,
{
    proof {
        lemma_div_non_zero(HSI_CLOCK_FREQ_HZ as int, tick_rate_hz as int);
    }
    HSI_CLOCK_FREQ_HZ / tick_rate_hz - 1
}

} // verus!
