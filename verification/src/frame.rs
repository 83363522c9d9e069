//! Stack Frame Initializer: the one-shot bootstrap that writes an initial,
//! exception-return-compatible saved context into every task's private
//! stack, so the generic restore path can dispatch a task that has never
//! run exactly as it resumes one that was suspended.

use vstd::prelude::*;

verus! {

use crate::consts::{
    EXC_RETURN_THREAD_PSP, FRAME_BYTES, INITIAL_X_PSR, NUM_TASKS, STACKS_REGION_HIGH,
    STACKS_REGION_LOW, lemma_region_in_bounds, lemma_stack_regions_disjoint,
    stack_low, stack_top,
};
use crate::context::{CpuContext, lemma_restored_unchanged, restored_context};
use crate::scheduler::{Kernel, TaskControlBlock, TaskHandler, handler_token, handler_token_spec};
use crate::stacks::{
    TaskStacks, lemma_frame_word_indices, lemma_word_index_offset,
    lemma_word_index_ordered, word_at, word_index,
};

/// The saved context a task must observe on its very first dispatch: all
/// general-purpose registers zero, the exception-return sentinel in the link
/// register, the entry token as resume address, the initial program-status
/// word, and the stack pointer back at the top of the task's stack.
pub open spec fn initial_context(h: TaskHandler, top: int) -> CpuContext {
    CpuContext {
        r0: 0,
        r1: 0,
        r2: 0,
        r3: 0,
        r4: 0,
        r5: 0,
        r6: 0,
        r7: 0,
        r8: 0,
        r9: 0,
        r10: 0,
        r11: 0,
        r12: 0,
        lr: EXC_RETURN_THREAD_PSP,
        pc: handler_token_spec(h),
        xpsr: INITIAL_X_PSR,
        psp: top as u32,
    }
}

/// Synthesize one task's initial saved context just below `stack_start`: the
/// initial status word, the entry token as resume address, the
/// exception-return sentinel, then thirteen zeroed register slots. Returns
/// the lowest address written, the place the restore path expects as top of
/// saved context.
#[verifier::rlimit(30)]
pub fn init_task_frame(stacks: &mut TaskStacks, stack_start: u32, handler: TaskHandler) -> (new_sp:
    u32)
    requires
        old(stacks).wf(),
        stack_start as int % 4 == 0,
        STACKS_REGION_LOW as int + FRAME_BYTES as int <= stack_start as int,
        stack_start as int <= STACKS_REGION_HIGH as int,
    ensures
        final(stacks).wf(),
        new_sp == stack_start - FRAME_BYTES,
        restored_context(final(stacks)@, new_sp as int) == initial_context(
            handler,
            stack_start as int,
        ),
        forall|m: int|
            0 <= m < final(stacks)@.len() && !(word_index(new_sp as int) <= m < word_index(
                stack_start as int,
            )) ==> final(stacks)@[m] == old(stacks)@[m],
{
    proof {
        lemma_frame_word_indices(stack_start as int - 64);
    }
    let ghost top = stack_start as int;
    let mut psp_frame = stack_start - 4;
    stacks.write_word(psp_frame, INITIAL_X_PSR);
    psp_frame = psp_frame - 4;
    stacks.write_word(psp_frame, handler_token(handler));
    psp_frame = psp_frame - 4;
    stacks.write_word(psp_frame, EXC_RETURN_THREAD_PSP);
    let mut j: usize = 0;
    while j < 13
        invariant
            stacks.wf(),
            j <= 13,
            psp_frame as int == top - 12 - 4 * j as int,
            top % 4 == 0,
            STACKS_REGION_LOW as int + 64 <= top <= STACKS_REGION_HIGH as int,
            word_at(stacks@, top - 4) == INITIAL_X_PSR,
            word_at(stacks@, top - 8) == handler_token_spec(handler),
            word_at(stacks@, top - 12) == EXC_RETURN_THREAD_PSP,
            forall|m: int|
                word_index(top) - 3 - j as int <= m < word_index(top) - 3 ==> stacks@[m] == 0u32,
            forall|m: int|
                0 <= m < stacks@.len() && !(word_index(top) - 3 - j as int <= m < word_index(top))
                    ==> stacks@[m] == old(stacks)@[m],
        decreases 13 - j,
    {
        proof {
            lemma_word_index_offset(top, -4 - j as int);
            lemma_word_index_offset(top, -1);
            lemma_word_index_offset(top, -2);
            lemma_word_index_offset(top, -3);
        }
        psp_frame = psp_frame - 4;
        stacks.write_word(psp_frame, 0);
        j += 1;
    }
    psp_frame
}

impl Kernel {
    /// Runs exactly once, before scheduling is enabled: write every task's
    /// initial saved context into its own stack and point each record's
    /// stack pointer at it. Establishes the full well-formedness the
    /// scheduler relies on from then on.
    #[verifier::rlimit(30)]
    pub fn init_tasks_stacks(&mut self)
        requires
            old(self).table_wf(),
            forall|i: int|
                0 <= i < NUM_TASKS as int ==> (#[trigger] old(self).tasks@[i].psp_value as int) % 4
                    == 0 && stack_low(i) + FRAME_BYTES as int <= old(self).tasks@[i].psp_value as int
                    <= stack_top(i),
        ensures
            final(self).wf(),
            final(self).tasks@.len() == old(self).tasks@.len(),
            forall|i: int|
                0 <= i < NUM_TASKS as int ==> final(self).tasks@[i] == (TaskControlBlock {
                    psp_value: (old(self).tasks@[i].psp_value - FRAME_BYTES) as u32,
                    ..old(self).tasks@[i]
                }),
            forall|i: int|
                0 <= i < NUM_TASKS as int ==> restored_context(
                    final(self).stacks@,
                    final(self).tasks@[i].psp_value as int,
                ) == initial_context(
                    #[trigger] old(self).tasks@[i].task_handler,
                    old(self).tasks@[i].psp_value as int,
                ),
            final(self).current_task == old(self).current_task,
            final(self).tick_count == old(self).tick_count,
            final(self).pendsv_pending == old(self).pendsv_pending,
    {
        let mut i: usize = 0;
        while i < NUM_TASKS
            invariant
                self.table_wf(),
                i <= NUM_TASKS,
                self.tasks@.len() == old(self).tasks@.len(),
                self.current_task == old(self).current_task,
                self.tick_count == old(self).tick_count,
                self.pendsv_pending == old(self).pendsv_pending,
                forall|j: int|
                    0 <= j < NUM_TASKS as int ==> (#[trigger] old(self).tasks@[j].psp_value as int)
                        % 4 == 0 && stack_low(j) + FRAME_BYTES as int <= old(
                        self,
                    ).tasks@[j].psp_value as int <= stack_top(j),
                forall|j: int| i as int <= j < NUM_TASKS as int ==> self.tasks@[j] == old(self).tasks@[j],
                forall|j: int|
                    0 <= j < i as int ==> #[trigger] self.tasks@[j] == (TaskControlBlock {
                        psp_value: (old(self).tasks@[j].psp_value - FRAME_BYTES) as u32,
                        ..old(self).tasks@[j]
                    }),
                forall|j: int|
                    0 <= j < i as int ==> restored_context(
                        self.stacks@,
                        self.tasks@[j].psp_value as int,
                    ) == initial_context(
                        #[trigger] old(self).tasks@[j].task_handler,
                        old(self).tasks@[j].psp_value as int,
                    ),
            decreases NUM_TASKS - i,
        {
            proof {
                lemma_region_in_bounds(i as int);
            }
            let ghost mem_before = self.stacks@;
            let ghost tasks_before = self.tasks@;
            let start = self.tasks[i].psp_value;
            let handler = self.tasks[i].task_handler;
            let new_sp = init_task_frame(&mut self.stacks, start, handler);
            let mut tcb = self.tasks[i];
            tcb.psp_value = new_sp;
            self.tasks.set(i, tcb);
            proof {
                let ii = i as int;
                assert forall|j: int| 0 <= j < ii implies restored_context(
                    self.stacks@,
                    self.tasks@[j].psp_value as int,
                ) == initial_context(
                    #[trigger] old(self).tasks@[j].task_handler,
                    old(self).tasks@[j].psp_value as int,
                ) by {
                    let sp_j = self.tasks@[j].psp_value as int;
                    lemma_stack_regions_disjoint(ii, j);
                    lemma_region_in_bounds(j);
                    lemma_frame_word_indices(sp_j);
                    if stack_top(j) <= stack_low(ii) {
                        lemma_word_index_ordered(sp_j + 64, stack_top(j));
                        lemma_word_index_ordered(stack_top(j), stack_low(ii));
                        lemma_word_index_ordered(stack_low(ii), start as int - 64);
                    } else {
                        lemma_word_index_ordered(start as int, stack_top(ii));
                        lemma_word_index_ordered(stack_top(ii), stack_low(j));
                        lemma_word_index_ordered(stack_low(j), sp_j);
                    }
                    lemma_restored_unchanged(
                        mem_before,
                        self.stacks@,
                        sp_j,
                        word_index(start as int - 64),
                        word_index(start as int),
                    );
                }
            }
            i += 1;
        }
    }
}

/// Bootstrap equivalence: a task dispatched for the first time observes the
/// same register and stack contract as a task resumed after suspension. If
/// the incoming task's frame is still the synthesized one and the dispatch
/// wrote only inside the outgoing task's stack, the uniform restore path
/// yields exactly the initial context: zeroed general-purpose registers, the
/// entry token as resume address, the stack pointer back at the stack top.
pub proof fn lemma_bootstrap_equivalence(
    m1: Seq<u32>,
    m2: Seq<u32>,
    h: TaskHandler,
    sp: int,
    lo: int,
    hi: int,
)
    requires
        m1.len() == m2.len(),
        restored_context(m1, sp) == initial_context(h, sp + FRAME_BYTES as int),
        forall|m: int| 0 <= m < m2.len() && !(lo <= m < hi) ==> m2[m] == m1[m],
        word_index(sp) + 16 <= lo || hi <= word_index(sp),
        0 <= word_index(sp),
        word_index(sp) + 16 <= m1.len(),
    ensures
        restored_context(m2, sp) == initial_context(h, sp + FRAME_BYTES as int),
        restored_context(m2, sp).r0 == 0 && restored_context(m2, sp).r12 == 0,
        restored_context(m2, sp).pc == handler_token_spec(h),
        restored_context(m2, sp).xpsr == INITIAL_X_PSR,
        restored_context(m2, sp).psp == (sp + FRAME_BYTES as int) as u32,
{
    lemma_restored_unchanged(m1, m2, sp, lo, hi);
}

} // verus!
