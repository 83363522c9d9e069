use rtos_core::consts::{
    BLOCKED, IDLE_T_STACK_START, RUNNING, TASK1_STACK_START, TASK2_STACK_START, TASK3_STACK_START,
    TASK4_STACK_START,
};
use rtos_core::gpio::{delay, toggle_output_level};
use rtos_core::routines::{task1_routine, task2_routine};
use rtos_core::scheduler::{Kernel, TaskHandler};
use rtos_core::systick::systick_reload_value;

#[test]
fn boot_table_state() {
    let k = Kernel::new();
    assert_eq!(k.tasks.len(), 5);
    assert_eq!(k.current_task, 1);
    assert_eq!(k.tick_count, 0);
    assert!(!k.pendsv_pending);
    let tops = [
        IDLE_T_STACK_START,
        TASK1_STACK_START,
        TASK2_STACK_START,
        TASK3_STACK_START,
        TASK4_STACK_START,
    ];
    let handlers = [
        TaskHandler::Idle,
        TaskHandler::Task1,
        TaskHandler::Task2,
        TaskHandler::Task3,
        TaskHandler::Task4,
    ];
    for i in 0..5 {
        assert_eq!(k.tasks[i].psp_value, tops[i]);
        assert_eq!(k.tasks[i].block_count, 0);
        assert_eq!(k.tasks[i].current_state, RUNNING);
        assert_eq!(k.tasks[i].task_handler, handlers[i]);
    }
}

#[test]
fn round_robin_order() {
    // Tasks 1..4 all runnable: successive selections from current = 1 visit
    // 2, 3, 4, 1, 2 in that cyclic order.
    let mut k = Kernel::new();
    let mut order = Vec::new();
    for _ in 0..5 {
        k.update_next_task();
        order.push(k.current_task);
    }
    assert_eq!(order, vec![2, 3, 4, 1, 2]);
}

#[test]
fn round_robin_never_selects_idle_in_rotation() {
    // From task 4 the scan passes index 0 and picks task 1: the idle task is
    // no part of the normal rotation.
    let mut k = Kernel::new();
    k.current_task = 4;
    k.update_next_task();
    assert_eq!(k.current_task, 1);
}

#[test]
fn round_robin_skips_blocked_task() {
    let mut k = Kernel::new();
    k.tasks[2].current_state = BLOCKED;
    k.update_next_task();
    assert_eq!(k.current_task, 3);
}

#[test]
fn idle_fallback_when_all_blocked() {
    // Every non-idle task blocked: the scheduler selects index 0.
    let mut k = Kernel::new();
    for i in 1..5 {
        k.tasks[i].current_state = BLOCKED;
    }
    k.update_next_task();
    assert_eq!(k.current_task, 0);
}

#[test]
fn task_delay_blocks_caller() {
    let mut k = Kernel::new();
    k.tick_count = 7;
    k.current_task = 2;
    k.task_delay(4);
    assert_eq!(k.tasks[2].current_state, BLOCKED);
    assert_eq!(k.tasks[2].block_count, 11);
    assert!(k.pendsv_pending);
    // Other records untouched.
    assert_eq!(k.tasks[1].current_state, RUNNING);
    assert_eq!(k.tasks[3].current_state, RUNNING);
}

#[test]
fn task_delay_wake_tick_wraps() {
    let mut k = Kernel::new();
    k.tick_count = u32::MAX;
    k.current_task = 1;
    k.task_delay(3);
    assert_eq!(k.tasks[1].block_count, 2);
}

#[test]
fn idle_never_blocks() {
    // The blocking primitive invoked from the idle task leaves its state
    // runnable and its wake tick unchanged.
    let mut k = Kernel::new();
    k.current_task = 0;
    k.task_delay(5);
    assert_eq!(k.tasks[0].current_state, RUNNING);
    assert_eq!(k.tasks[0].block_count, 0);
    assert!(!k.pendsv_pending);
}

#[test]
fn wake_exactness() {
    // A task blocked at tick 0 for 3 ticks becomes runnable precisely when
    // the counter equals 3, not before.
    let mut k = Kernel::new();
    k.current_task = 2;
    k.task_delay(3);
    assert_eq!(k.tasks[2].block_count, 3);
    k.systick_handler();
    assert_eq!(k.tick_count, 1);
    assert_eq!(k.tasks[2].current_state, BLOCKED);
    k.systick_handler();
    assert_eq!(k.tasks[2].current_state, BLOCKED);
    k.systick_handler();
    assert_eq!(k.tick_count, 3);
    assert_eq!(k.tasks[2].current_state, RUNNING);
}

#[test]
fn missed_tick_leaves_task_blocked() {
    // Equality, not "has passed", decides the wake-up: a counter already
    // beyond the wake tick never wakes the task.
    let mut k = Kernel::new();
    k.tasks[3].current_state = BLOCKED;
    k.tasks[3].block_count = 2;
    k.tick_count = 2;
    k.systick_handler();
    assert_eq!(k.tick_count, 3);
    assert_eq!(k.tasks[3].current_state, BLOCKED);
}

#[test]
fn systick_requests_switch_and_wraps() {
    let mut k = Kernel::new();
    k.tick_count = u32::MAX;
    k.systick_handler();
    assert_eq!(k.tick_count, 0);
    assert!(k.pendsv_pending);
}

#[test]
fn worker_routines_toggle_and_block() {
    let mut k = Kernel::new();
    let pin = task1_routine(&mut k);
    assert_eq!(pin, 12);
    assert_eq!(k.tasks[1].current_state, BLOCKED);
    assert_eq!(k.tasks[1].block_count, 2);
    let mut k2 = Kernel::new();
    k2.current_task = 2;
    let pin2 = task2_routine(&mut k2);
    assert_eq!(pin2, 13);
    assert_eq!(k2.tasks[2].block_count, 4);
}

#[test]
fn toggle_level_inverts() {
    assert!(toggle_output_level(false));
    assert!(!toggle_output_level(true));
}

#[test]
fn delay_counts_down_and_returns() {
    delay(0);
    delay(10_000);
}

#[test]
fn systick_reload_for_configured_rates() {
    assert_eq!(systick_reload_value(1), 15_999_999);
    assert_eq!(systick_reload_value(1000), 15_999);
}
