//! A minimal round-robin task kernel for a single-core microcontroller,
//! modelled over plain values so that its scheduling, queueing, locking and
//! privilege-transition rules can be verified. The hardware-facing pieces
//! (the context-switch instruction sequence, the exception vectors and the
//! peripheral registers) live outside this crate; the kernel threads one
//! saved stack-pointer value per task through the switch and keeps every
//! decision — who runs next, who is blocked, who may touch shared state —
//! in verified code.

pub mod exceptions;
pub mod global_allocator;
pub mod led;
pub mod linked_list;
pub mod mutex;
pub mod process;
pub mod rwlock;
pub mod scheduler;
pub mod sysdata;
pub mod systick;
pub mod task;
