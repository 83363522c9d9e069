//! Context-Switch Trap: the thread-mode register set, the layout of a saved
//! context frame, and the switch that persists the outgoing task's registers
//! on its own stack and restores the incoming task's registers from its
//! stack. The same restore path serves a task resuming after suspension and
//! a task dispatched for the very first time.

use vstd::prelude::*;

verus! {

use crate::consts::{FRAME_BYTES, stack_low, stack_top};
use crate::consts::lemma_region_in_bounds;
use crate::scheduler::{Kernel, TaskControlBlock, next_task_spec};
use crate::stacks::{
    TaskStacks, addr_in_region, lemma_frame_word_indices, word_at, word_index,
};

/// The thread-mode register set of the single CPU: the thirteen
/// general-purpose registers, link register, resume address, program-status
/// word and the process stack pointer.
#[derive(Clone, Copy, PartialEq, Eq, Structural, Debug)]
pub struct CpuContext {
    pub r0: u32,
    pub r1: u32,
    pub r2: u32,
    pub r3: u32,
    pub r4: u32,
    pub r5: u32,
    pub r6: u32,
    pub r7: u32,
    pub r8: u32,
    pub r9: u32,
    pub r10: u32,
    pub r11: u32,
    pub r12: u32,
    pub lr: u32,
    pub pc: u32,
    pub xpsr: u32,
    pub psp: u32,
}

/// The context a saved frame based at `sp` restores to: r4-r11 in the eight
/// software-saved words, then the eight-word hardware frame (r0-r3, r12, lr,
/// pc, xpsr), with the stack pointer back above the whole frame.
pub open spec fn restored_context(mem: Seq<u32>, sp: int) -> CpuContext {
    CpuContext {
        r4: word_at(mem, sp),
        r5: word_at(mem, sp + 4),
        r6: word_at(mem, sp + 8),
        r7: word_at(mem, sp + 12),
        r8: word_at(mem, sp + 16),
        r9: word_at(mem, sp + 20),
        r10: word_at(mem, sp + 24),
        r11: word_at(mem, sp + 28),
        r0: word_at(mem, sp + 32),
        r1: word_at(mem, sp + 36),
        r2: word_at(mem, sp + 40),
        r3: word_at(mem, sp + 44),
        r12: word_at(mem, sp + 48),
        lr: word_at(mem, sp + 52),
        pc: word_at(mem, sp + 56),
        xpsr: word_at(mem, sp + 60),
        psp: (sp + FRAME_BYTES as int) as u32,
    }
}

/// The live stack pointer belongs to the current task: word aligned, inside
/// that task's own stack region, with room for one full context frame below.
pub open spec fn live_sp_wf(k: Kernel, cpu: CpuContext) -> bool {
    let cur = k.current_task as int;
    &&& cpu.psp as int % 4 == 0
    &&& stack_low(cur) + FRAME_BYTES as int <= cpu.psp as int
    &&& cpu.psp as int <= stack_top(cur)
}

/// Exactly-one-runner invariant: the one live stack pointer, held by the
/// hardware register, points into the current task's own stack region, and
/// every stack pointer stored in the table is a valid previously saved (or
/// synthesized) address within its own task's region.
pub open spec fn runner_invariant(k: Kernel, cpu: CpuContext) -> bool {
    &&& k.wf()
    &&& live_sp_wf(k, cpu)
}

/// The runner invariant is established by the boot sequence: once every
/// record's stack pointer sits one frame below its stack top (as the frame
/// initializer leaves it) and the live stack pointer is loaded from the
/// current task's record, exactly one task owns the live stack pointer and
/// every other saved pointer is valid within its own region.
pub proof fn lemma_boot_runner_invariant(k: Kernel, cpu: CpuContext)
    requires
        k.wf(),
        k.tasks@[k.current_task as int].psp_value as int == stack_top(k.current_task as int)
            - FRAME_BYTES as int,
        cpu.psp == k.tasks@[k.current_task as int].psp_value,
    ensures
        runner_invariant(k, cpu),
{
}

/// A context frame is unchanged between two memories that differ only inside
/// a word range disjoint from the frame.
pub proof fn lemma_restored_unchanged(m1: Seq<u32>, m2: Seq<u32>, sp: int, lo: int, hi: int)
    requires
        m1.len() == m2.len(),
        forall|m: int| 0 <= m < m2.len() && !(lo <= m < hi) ==> m2[m] == m1[m],
        word_index(sp) + 16 <= lo || hi <= word_index(sp),
        0 <= word_index(sp),
        word_index(sp) + 16 <= m1.len(),
    ensures
        restored_context(m2, sp) == restored_context(m1, sp),
{
    lemma_frame_word_indices(sp);
}

/// Hardware exception entry: stack the eight-word hardware frame (xpsr, pc,
/// lr, r12, r3-r0, from high to low addresses) on the process stack.
pub fn exception_entry(stacks: &mut TaskStacks, cpu: &mut CpuContext)
    requires
        old(stacks).wf(),
        old(cpu).psp as int % 4 == 0,
        addr_in_region(old(cpu).psp as int - 32),
        old(cpu).psp as int <= crate::consts::STACKS_REGION_HIGH as int,
    ensures
        final(stacks).wf(),
        *final(cpu) == (CpuContext { psp: (old(cpu).psp - 32) as u32, ..*old(cpu) }),
        forall|m: int|
            0 <= m < final(stacks)@.len() && !(word_index(old(cpu).psp as int - 32) <= m
                < word_index(old(cpu).psp as int)) ==> final(stacks)@[m] == old(stacks)@[m],
        word_at(final(stacks)@, old(cpu).psp as int - 32) == old(cpu).r0,
        word_at(final(stacks)@, old(cpu).psp as int - 28) == old(cpu).r1,
        word_at(final(stacks)@, old(cpu).psp as int - 24) == old(cpu).r2,
        word_at(final(stacks)@, old(cpu).psp as int - 20) == old(cpu).r3,
        word_at(final(stacks)@, old(cpu).psp as int - 16) == old(cpu).r12,
        word_at(final(stacks)@, old(cpu).psp as int - 12) == old(cpu).lr,
        word_at(final(stacks)@, old(cpu).psp as int - 8) == old(cpu).pc,
        word_at(final(stacks)@, old(cpu).psp as int - 4) == old(cpu).xpsr,
{
    proof {
        lemma_frame_word_indices(old(cpu).psp as int - 32);
    }
    stacks.write_word(cpu.psp - 4, cpu.xpsr);
    stacks.write_word(cpu.psp - 8, cpu.pc);
    stacks.write_word(cpu.psp - 12, cpu.lr);
    stacks.write_word(cpu.psp - 16, cpu.r12);
    stacks.write_word(cpu.psp - 20, cpu.r3);
    stacks.write_word(cpu.psp - 24, cpu.r2);
    stacks.write_word(cpu.psp - 28, cpu.r1);
    stacks.write_word(cpu.psp - 32, cpu.r0);
    cpu.psp = cpu.psp - 32;
}

/// Hardware exception return: unstack the eight-word hardware frame from the
/// process stack and resume thread mode with it.
pub fn exception_return(stacks: &TaskStacks, cpu: &mut CpuContext)
    requires
        stacks.wf(),
        old(cpu).psp as int % 4 == 0,
        addr_in_region(old(cpu).psp as int),
        old(cpu).psp as int + 32 <= crate::consts::STACKS_REGION_HIGH as int,
    ensures
        *final(cpu) == (CpuContext {
            r0: word_at(stacks@, old(cpu).psp as int),
            r1: word_at(stacks@, old(cpu).psp as int + 4),
            r2: word_at(stacks@, old(cpu).psp as int + 8),
            r3: word_at(stacks@, old(cpu).psp as int + 12),
            r12: word_at(stacks@, old(cpu).psp as int + 16),
            lr: word_at(stacks@, old(cpu).psp as int + 20),
            pc: word_at(stacks@, old(cpu).psp as int + 24),
            xpsr: word_at(stacks@, old(cpu).psp as int + 28),
            psp: (old(cpu).psp + 32) as u32,
            ..*old(cpu)
        }),
{
    proof {
        lemma_frame_word_indices(old(cpu).psp as int);
    }
    let base = cpu.psp;
    cpu.r0 = stacks.read_word(base);
    cpu.r1 = stacks.read_word(base + 4);
    cpu.r2 = stacks.read_word(base + 8);
    cpu.r3 = stacks.read_word(base + 12);
    cpu.r12 = stacks.read_word(base + 16);
    cpu.lr = stacks.read_word(base + 20);
    cpu.pc = stacks.read_word(base + 24);
    cpu.xpsr = stacks.read_word(base + 28);
    cpu.psp = base + 32;
}

impl Kernel {
    /// The switch-trap body proper, between exception entry and return: push
    /// r4-r11 below the hardware frame, record the outgoing stack pointer,
    /// let the Scheduler Core pick the next task, then pop r4-r11 from that
    /// task's saved frame and leave its stack pointer at the hardware frame.
    #[verifier::rlimit(60)]
    pub fn pendsv_handler(&mut self, cpu: &mut CpuContext)
        requires
            old(self).wf(),
            old(cpu).psp as int % 4 == 0,
            stack_low(old(self).current_task as int) + 32 <= old(cpu).psp as int,
            old(cpu).psp as int + 32 <= stack_top(old(self).current_task as int),
        ensures
            final(self).wf(),
            final(self).current_task as int == next_task_spec(
                old(self).tasks@,
                old(self).current_task as int,
            ),
            final(self).tasks@ == old(self).tasks@.update(
                old(self).current_task as int,
                (TaskControlBlock {
                    psp_value: (old(cpu).psp - 32) as u32,
                    ..old(self).tasks@[old(self).current_task as int]
                }),
            ),
            final(self).tick_count == old(self).tick_count,
            final(self).pendsv_pending == old(self).pendsv_pending,
            final(self).stacks@.len() == old(self).stacks@.len(),
            forall|m: int|
                0 <= m < final(self).stacks@.len() && !(word_index(old(cpu).psp as int - 32) <= m
                    < word_index(old(cpu).psp as int)) ==> final(self).stacks@[m] == old(
                    self,
                ).stacks@[m],
            word_at(final(self).stacks@, old(cpu).psp as int - 32) == old(cpu).r4,
            word_at(final(self).stacks@, old(cpu).psp as int - 28) == old(cpu).r5,
            word_at(final(self).stacks@, old(cpu).psp as int - 24) == old(cpu).r6,
            word_at(final(self).stacks@, old(cpu).psp as int - 20) == old(cpu).r7,
            word_at(final(self).stacks@, old(cpu).psp as int - 16) == old(cpu).r8,
            word_at(final(self).stacks@, old(cpu).psp as int - 12) == old(cpu).r9,
            word_at(final(self).stacks@, old(cpu).psp as int - 8) == old(cpu).r10,
            word_at(final(self).stacks@, old(cpu).psp as int - 4) == old(cpu).r11,
            *final(cpu) == (CpuContext {
                r4: word_at(
                    final(self).stacks@,
                    final(self).tasks@[final(self).current_task as int].psp_value as int,
                ),
                r5: word_at(
                    final(self).stacks@,
                    final(self).tasks@[final(self).current_task as int].psp_value as int + 4,
                ),
                r6: word_at(
                    final(self).stacks@,
                    final(self).tasks@[final(self).current_task as int].psp_value as int + 8,
                ),
                r7: word_at(
                    final(self).stacks@,
                    final(self).tasks@[final(self).current_task as int].psp_value as int + 12,
                ),
                r8: word_at(
                    final(self).stacks@,
                    final(self).tasks@[final(self).current_task as int].psp_value as int + 16,
                ),
                r9: word_at(
                    final(self).stacks@,
                    final(self).tasks@[final(self).current_task as int].psp_value as int + 20,
                ),
                r10: word_at(
                    final(self).stacks@,
                    final(self).tasks@[final(self).current_task as int].psp_value as int + 24,
                ),
                r11: word_at(
                    final(self).stacks@,
                    final(self).tasks@[final(self).current_task as int].psp_value as int + 28,
                ),
                psp: (final(self).tasks@[final(self).current_task as int].psp_value + 32) as u32,
                ..*old(cpu)
            }),
    {
        proof {
            lemma_region_in_bounds(self.current_task as int);
            lemma_frame_word_indices(old(cpu).psp as int - 32);
        }
        let psp_value = cpu.psp - 32;
        self.stacks.write_word(psp_value, cpu.r4);
        self.stacks.write_word(psp_value + 4, cpu.r5);
        self.stacks.write_word(psp_value + 8, cpu.r6);
        self.stacks.write_word(psp_value + 12, cpu.r7);
        self.stacks.write_word(psp_value + 16, cpu.r8);
        self.stacks.write_word(psp_value + 20, cpu.r9);
        self.stacks.write_word(psp_value + 24, cpu.r10);
        self.stacks.write_word(psp_value + 28, cpu.r11);
        self.set_psp_value(psp_value);
        proof {
            crate::scheduler::lemma_next_task_states_only(
                old(self).tasks@,
                self.tasks@,
                old(self).current_task as int,
            );
        }
        self.update_next_task();
        let next_psp_value = self.get_psp_value();
        proof {
            lemma_region_in_bounds(self.current_task as int);
        }
        cpu.r4 = self.stacks.read_word(next_psp_value);
        cpu.r5 = self.stacks.read_word(next_psp_value + 4);
        cpu.r6 = self.stacks.read_word(next_psp_value + 8);
        cpu.r7 = self.stacks.read_word(next_psp_value + 12);
        cpu.r8 = self.stacks.read_word(next_psp_value + 16);
        cpu.r9 = self.stacks.read_word(next_psp_value + 20);
        cpu.r10 = self.stacks.read_word(next_psp_value + 24);
        cpu.r11 = self.stacks.read_word(next_psp_value + 28);
        cpu.psp = next_psp_value + 32;
    }

    /// One full dispatch of the Context-Switch Trap, hardware entry and
    /// return included. The outgoing task's whole register set ends up as a
    /// saved frame under its recorded stack pointer; the incoming task's
    /// register set is exactly what its saved frame restores to — whether
    /// that frame was saved by an earlier switch or synthesized at bootstrap.
    #[verifier::rlimit(100)]
    pub fn context_switch(&mut self, cpu: &mut CpuContext)
        requires
            runner_invariant(*old(self), *old(cpu)),
        ensures
            runner_invariant(*final(self), *final(cpu)),
            final(self).current_task as int == next_task_spec(
                old(self).tasks@,
                old(self).current_task as int,
            ),
            final(self).tasks@ == old(self).tasks@.update(
                old(self).current_task as int,
                (TaskControlBlock {
                    psp_value: (old(cpu).psp - FRAME_BYTES) as u32,
                    ..old(self).tasks@[old(self).current_task as int]
                }),
            ),
            restored_context(final(self).stacks@, old(cpu).psp as int - FRAME_BYTES as int)
                == *old(cpu),
            *final(cpu) == restored_context(
                final(self).stacks@,
                final(self).tasks@[final(self).current_task as int].psp_value as int,
            ),
            final(self).stacks@.len() == old(self).stacks@.len(),
            forall|m: int|
                0 <= m < final(self).stacks@.len() && !(word_index(
                    old(cpu).psp as int - FRAME_BYTES as int,
                ) <= m < word_index(old(cpu).psp as int)) ==> final(self).stacks@[m] == old(
                    self,
                ).stacks@[m],
            final(self).tick_count == old(self).tick_count,
            !final(self).pendsv_pending,
    {
        proof {
            lemma_region_in_bounds(self.current_task as int);
            lemma_frame_word_indices(old(cpu).psp as int - 64);
        }
        self.pendsv_pending = false;
        exception_entry(&mut self.stacks, cpu);
        self.pendsv_handler(cpu);
        proof {
            let next = self.current_task as int;
            lemma_region_in_bounds(next);
            lemma_frame_word_indices(self.tasks@[next].psp_value as int);
        }
        exception_return(&self.stacks, cpu);
    }

    /// One-time bootstrap step: load the stack-pointer register from the
    /// current task's record, so thread-mode execution continues on that
    /// task's own stack.
    pub fn switch_sp_to_psp(&self, cpu: &mut CpuContext)
        requires
            self.table_wf(),
        ensures
            *final(cpu) == (CpuContext {
                psp: self.tasks@[self.current_task as int].psp_value,
                ..*old(cpu)
            }),
    {
        cpu.psp = self.get_psp_value();
    }
}

} // verus!
