//! The task control block and its run-state machine.
//!
//! A task owns a statically sized, word-aligned stack region, the stack
//! pointer last saved for it, and the block of general-purpose registers the
//! hardware does not stack automatically. Creating a task synthesizes an
//! exception frame at the top of its stack — zeroed argument and scratch
//! registers, the program counter at the entry function, the status
//! register's instruction-set-mode bit set — so that the first resume is
//! indistinguishable from returning from an interrupt into the entry
//! function.
//!
//! A task is either `Ready` or `Blocked` with a wake deadline. The scheduler
//! visits it once per pass: a `Ready` task is run (the platform performs the
//! switch and reports the saved stack pointer back through `switch_done`); a
//! `Blocked` task is only wake-checked against the tick counter and never
//! run on that same pass.

use crate::exceptions::lemma_frame_round_trip;
use crate::exceptions::ExceptionFrame;
use crate::exceptions::frame_store;
use crate::exceptions::frame_at;
use crate::exceptions::store_frame;
use crate::exceptions::FRAME_WORDS;
use vstd::prelude::*;

verus! {

/// Bytes in one task stack; one constant across all tasks.
pub const STACK_SIZE: usize = 1024;

/// The same region counted in 32-bit machine words.
pub const STACK_WORDS: usize = STACK_SIZE / 4;

/// Status-register value with the instruction-set-mode bit set, the one bit
/// a synthesized frame must carry for the first exception return.
pub const XPSR_THUMB: u32 = 0x0100_0000;

/// A task's private stack: a word array of fixed size. On the target the
/// region is 8-byte aligned and placed so that it aliases neither another
/// stack nor kernel data; placement is the surrounding image's contract.
pub struct AlignedStack {
    pub mem: Vec<u32>,
}

impl AlignedStack {
    pub open spec fn wf(self) -> bool {
        self.mem@.len() == STACK_WORDS
    }

    /// A fresh, zeroed stack region.
    pub fn new() -> (r: AlignedStack)
        ensures
            r.wf(),
            forall|i: int| 0 <= i < STACK_WORDS ==> r.mem@[i] == 0,
    {
        AlignedStack { mem: vec![0u32; STACK_WORDS] }
    }
}

/// The run states the scheduler distinguishes. "Currently executing" is not
/// a third state: the running task is the head of the ready queue while a
/// switch is outstanding.
#[derive(Clone, Copy, PartialEq, Eq, Structural, Debug)]
pub enum TaskState {
    Ready,
    Blocked,
}

/// A task control block: saved stack pointer (a word offset into the task's
/// own stack when first created; afterwards whatever the switch hands back),
/// the manually saved register block, the run state, the optional wake
/// deadline, and the owned stack region.
pub struct Task {
    pub sp: usize,
    pub regs: [u32; 8],
    pub state: TaskState,
    pub wait_until: Option<u32>,
    pub stack: AlignedStack,
}

/// What one wake check does to a task: a blocked task whose deadline has
/// been reached becomes `Ready` with the deadline cleared; any other task is
/// left alone.
pub open spec fn woken(t: Task, tick: u32) -> Task {
    if t.state is Blocked && (t.wait_until matches Some(d) && tick >= d) {
        Task { state: TaskState::Ready, wait_until: None, ..t }
    } else {
        t
    }
}

impl Task {
    pub open spec fn wf(self) -> bool {
        self.stack.wf()
    }

    /// Builds a task over its own stack region, ready to start at `entry`:
    /// the top of the stack gets a synthetic exception frame with zeroed
    /// r0-r3, r12 and lr, the program counter at the entry address and the
    /// instruction-set-mode bit set, so the first resume starts the entry
    /// function with all argument registers zero.
    pub fn new(stack: AlignedStack, entry: u32) -> (r: Task)
        requires
            stack.wf(),
        ensures
            r.wf(),
            r.sp == STACK_WORDS - FRAME_WORDS,
            r.state is Ready,
            r.wait_until is None,
            forall|i: int| 0 <= i < 8 ==> r.regs@[i] == 0,
            r.stack.mem@ == store_frame(
                stack.mem@,
                (STACK_WORDS - FRAME_WORDS) as int,
                (ExceptionFrame {
                    r0: 0,
                    r1: 0,
                    r2: 0,
                    r3: 0,
                    r12: 0,
                    lr: 0,
                    pc: entry,
                    xpsr: XPSR_THUMB,
                }),
            ),
            frame_at(r.stack.mem@, r.sp as int) == (ExceptionFrame {
                r0: 0,
                r1: 0,
                r2: 0,
                r3: 0,
                r12: 0,
                lr: 0,
                pc: entry,
                xpsr: XPSR_THUMB,
            }),
    {
        let sp: usize = STACK_WORDS - FRAME_WORDS;
        let f = ExceptionFrame {
            r0: 0,
            r1: 0,
            r2: 0,
            r3: 0,
            r12: 0,
            lr: 0,
            pc: entry,
            xpsr: XPSR_THUMB,
        };
        let ghost mem0 = stack.mem@;
        let mut stack = stack;
        frame_store(&mut stack.mem, sp, &f);
        proof {
            lemma_frame_round_trip(mem0, sp as int, f);
        }
        Task { sp, regs: [0u32; 8], state: TaskState::Ready, wait_until: None, stack }
    }

    /// One scheduler visit. A `Ready` task asks to be run: the caller must
    /// perform the context switch and report back through `switch_done`. A
    /// `Blocked` task is never run on this visit; it is wake-checked against
    /// the tick counter, so that once the deadline is reached it turns
    /// `Ready` — eligible to run from the *next* visit on.
    pub fn exec(&mut self, tick: u32) -> (run: bool)
        ensures
            run == (old(self).state is Ready),
            *final(self) == woken(*old(self), tick),
    {
        match self.state {
            TaskState::Ready => true,
            TaskState::Blocked => {
                if let Some(until) = self.wait_until {
                    if tick >= until {
                        self.wait_until = None;
                        self.state = TaskState::Ready;
                    }
                }
                false
            },
        }
    }

    /// Called by the running task itself, before it yields: block until the
    /// tick counter reaches `tick`. Takes effect on the scheduler's next
    /// visit to the task.
    pub fn wait_until(&mut self, tick: u32)
        ensures
            *final(self) == (Task {
                state: TaskState::Blocked,
                wait_until: Some(tick),
                ..*old(self)
            }),
    {
        self.wait_until = Some(tick);
        self.state = TaskState::Blocked;
    }

    /// Records the outcome of a completed context switch: the stack pointer
    /// and register block the task yielded with. Everything else — in
    /// particular a block state the task entered while it ran — is kept.
    pub fn switch_done(&mut self, new_sp: usize, new_regs: [u32; 8])
        ensures
            *final(self) == (Task { sp: new_sp, regs: new_regs, ..*old(self) }),
    {
        self.sp = new_sp;
        self.regs = new_regs;
    }

    /// The saved stack pointer to hand to the context switch.
    pub fn saved_sp(&self) -> (r: usize)
        ensures
            r == self.sp,
    {
        self.sp
    }

    /// The saved register block to hand to the context switch.
    pub fn saved_regs(&self) -> (r: [u32; 8])
        ensures
            r == self.regs,
    {
        self.regs
    }

    /// The current run state.
    pub fn run_state(&self) -> (r: TaskState)
        ensures
            r == self.state,
    {
        self.state
    }

    /// The pending wake deadline, present only while blocked.
    pub fn deadline(&self) -> (r: Option<u32>)
        ensures
            r == self.wait_until,
    {
        self.wait_until
    }
}

} // verus!
