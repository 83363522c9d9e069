//! A minimal preemptive round-robin kernel for a single-core microcontroller,
//! modelled and verified over an explicit memory region.
//!
//! A fixed set of tasks (a dedicated idle task at index 0 plus four worker
//! tasks) share one CPU. Each task owns a disjoint, statically sized stack
//! inside one RAM region. A periodic tick unblocks delayed tasks and requests
//! a context switch; the switch trap saves the outgoing task's registers on
//! its own stack, lets the scheduler pick the next runnable task and restores
//! that task's registers from its stack. The stack-frame initializer
//! synthesizes a first saved context for every task so that the very first
//! dispatch runs through the same restore path as every later one.
//!
//! The hardware binding (exception vectors, the stack-pointer registers,
//! memory-mapped peripherals) lives outside this crate; it drives the model
//! through the handler functions and performs the actions they decide on.

pub mod consts;
pub mod context;
pub mod frame;
pub mod gpio;
pub mod routines;
pub mod scheduler;
pub mod stacks;
pub mod systick;
