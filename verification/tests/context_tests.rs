use rtos_core::consts::{
    BLOCKED, EXC_RETURN_THREAD_PSP, FRAME_BYTES, INITIAL_X_PSR, RUNNING, stack_top_addr,
};
use rtos_core::context::CpuContext;
use rtos_core::routines::{idle_routine, task1_routine, task2_routine, task3_routine, task4_routine};
use rtos_core::scheduler::{Kernel, handler_token};

fn zero_context() -> CpuContext {
    CpuContext {
        r0: 0,
        r1: 0,
        r2: 0,
        r3: 0,
        r4: 0,
        r5: 0,
        r6: 0,
        r7: 0,
        r8: 0,
        r9: 0,
        r10: 0,
        r11: 0,
        r12: 0,
        lr: 0,
        pc: 0,
        xpsr: 0,
        psp: 0,
    }
}

fn booted_kernel() -> (Kernel, CpuContext) {
    let mut k = Kernel::new();
    k.init_tasks_stacks();
    let mut cpu = zero_context();
    k.switch_sp_to_psp(&mut cpu);
    (k, cpu)
}

#[test]
fn synthesized_frames_have_expected_layout() {
    let mut k = Kernel::new();
    k.init_tasks_stacks();
    for i in 0..5 {
        let top = stack_top_addr(i);
        assert_eq!(k.tasks[i].psp_value, top - FRAME_BYTES);
        // Highest three words: status word, entry token, return sentinel.
        assert_eq!(k.stacks.read_word(top - 4), INITIAL_X_PSR);
        assert_eq!(k.stacks.read_word(top - 8), handler_token(k.tasks[i].task_handler));
        assert_eq!(k.stacks.read_word(top - 12), EXC_RETURN_THREAD_PSP);
        // Thirteen zeroed general-purpose register slots below them.
        for w in 4..17 {
            assert_eq!(k.stacks.read_word(top - 4 * w), 0);
        }
    }
}

#[test]
fn first_dispatch_observes_initial_context() {
    // Bootstrap equivalence: the first dispatch of a task, through the same
    // restore path as any resumption, hands it zeroed general-purpose
    // registers, its entry token as resume address, the initial status word
    // and its own stack top as stack pointer.
    let (mut k, mut cpu) = booted_kernel();
    cpu.r7 = 0xDEAD_BEEF;
    k.context_switch(&mut cpu);
    assert_eq!(k.current_task, 2);
    assert_eq!(cpu.r0, 0);
    assert_eq!(cpu.r7, 0);
    assert_eq!(cpu.r12, 0);
    assert_eq!(cpu.pc, handler_token(k.tasks[2].task_handler));
    assert_eq!(cpu.lr, EXC_RETURN_THREAD_PSP);
    assert_eq!(cpu.xpsr, INITIAL_X_PSR);
    assert_eq!(cpu.psp, stack_top_addr(2));
    assert!(!k.pendsv_pending);
}

#[test]
fn context_switch_saves_and_restores_whole_register_set() {
    // Runner round trip: registers saved on the outgoing task's own stack
    // come back unchanged when the rotation returns to it.
    let (mut k, mut cpu) = booted_kernel();
    k.tasks[3].current_state = BLOCKED;
    k.tasks[4].current_state = BLOCKED;
    let saved = CpuContext {
        r0: 10,
        r1: 11,
        r2: 12,
        r3: 13,
        r4: 14,
        r5: 15,
        r6: 16,
        r7: 17,
        r8: 18,
        r9: 19,
        r10: 20,
        r11: 21,
        r12: 22,
        lr: 0xFFFF_FFFD,
        pc: 0x0800_1234,
        xpsr: INITIAL_X_PSR,
        psp: cpu.psp,
    };
    cpu = saved;
    k.context_switch(&mut cpu);
    assert_eq!(k.current_task, 2);
    assert_ne!(cpu, saved);
    // Task 3, 4 blocked, idle skipped in rotation: the next switch returns
    // to task 1 and restores exactly what was saved.
    k.context_switch(&mut cpu);
    assert_eq!(k.current_task, 1);
    assert_eq!(cpu, saved);
}

#[test]
fn saved_stack_pointers_stay_in_own_regions() {
    // Exactly-one-runner invariant, observed over a run: every stored stack
    // pointer stays a valid frame base inside its own task's region, and the
    // live pointer stays inside the current task's region.
    let (mut k, mut cpu) = booted_kernel();
    for step in 0..40u32 {
        if step % 3 == 0 {
            k.systick_handler();
        }
        k.context_switch(&mut cpu);
        for i in 0..5 {
            let top = stack_top_addr(i);
            let low = top - 1024;
            let sp = k.tasks[i].psp_value;
            assert_eq!(sp % 4, 0);
            assert!(low <= sp && sp + FRAME_BYTES <= top, "task {i} sp out of region");
        }
        let cur_top = stack_top_addr(k.current_task);
        assert!(cur_top - 1024 < cpu.psp && cpu.psp <= cur_top);
    }
}

#[test]
fn scenario_delays_two_four_six_eight() {
    // An end-to-end trace: tasks 1..4 request delays 2, 4, 6, 8 starting at
    // tick 0 with task 1 dispatched first. Each worker runs once, blocks,
    // the idle task absorbs the gap, and at tick 2 task 1 runs again. At
    // tick 4 task 1 and task 2 wake together and dispatch in ascending
    // index order from the idle task.
    let (mut k, mut cpu) = booted_kernel();
    let mut dispatched = Vec::new();
    let mut run_current = |k: &mut Kernel, cpu: &mut CpuContext, log: &mut Vec<usize>| {
        match k.current_task {
            1 => {
                task1_routine(k);
            }
            2 => {
                task2_routine(k);
            }
            3 => {
                task3_routine(k);
            }
            4 => {
                task4_routine(k);
            }
            _ => idle_routine(k),
        }
        if k.pendsv_pending {
            k.context_switch(cpu);
            log.push(k.current_task);
        }
    };
    // Tick 0: the four workers run and block in turn, then idle takes over.
    for _ in 0..4 {
        run_current(&mut k, &mut cpu, &mut dispatched);
    }
    assert_eq!(dispatched, vec![2, 3, 4, 0]);
    assert_eq!(k.tasks[1].block_count, 2);
    assert_eq!(k.tasks[2].block_count, 4);
    assert_eq!(k.tasks[3].block_count, 6);
    assert_eq!(k.tasks[4].block_count, 8);
    // Tick 1: nothing wakes; idle stays.
    k.systick_handler();
    k.context_switch(&mut cpu);
    assert_eq!(k.current_task, 0);
    // Tick 2: task 1 wakes and is dispatched; it runs, blocking until 4.
    k.systick_handler();
    k.context_switch(&mut cpu);
    assert_eq!(k.current_task, 1);
    dispatched.clear();
    run_current(&mut k, &mut cpu, &mut dispatched);
    assert_eq!(dispatched, vec![0]);
    assert_eq!(k.tasks[1].block_count, 4);
    // Tick 3: idle. Tick 4: tasks 1 and 2 wake together; from the idle task
    // the ascending scan dispatches task 1 before task 2.
    k.systick_handler();
    k.context_switch(&mut cpu);
    assert_eq!(k.current_task, 0);
    k.systick_handler();
    assert_eq!(k.tasks[1].current_state, RUNNING);
    assert_eq!(k.tasks[2].current_state, RUNNING);
    k.context_switch(&mut cpu);
    assert_eq!(k.current_task, 1);
    dispatched.clear();
    run_current(&mut k, &mut cpu, &mut dispatched);
    assert_eq!(dispatched, vec![2]);
}
