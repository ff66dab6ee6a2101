//! A bare execution context: a saved stack pointer and register block over
//! an owned stack region, without a run-state machine. The scheduler's
//! `Task` supersedes it; this remains the minimal form of the same
//! stack-frame contract.

use crate::exceptions::lemma_frame_round_trip;
use crate::exceptions::ExceptionFrame;
use crate::exceptions::frame_store;
use crate::exceptions::frame_at;
use crate::exceptions::store_frame;
use crate::exceptions::FRAME_WORDS;
use crate::task::XPSR_THUMB;
use vstd::prelude::*;

verus! {

/// Bytes in one process stack.
pub const STACK_SIZE: usize = 1024;

/// The same region counted in 32-bit machine words.
pub const STACK_WORDS: usize = STACK_SIZE / 4;

/// A process's private stack: a word array of fixed size, 8-byte aligned on
/// the target.
pub struct AlignedStack {
    pub mem: Vec<u32>,
}

impl AlignedStack {
    pub open spec fn wf(self) -> bool {
        self.mem@.len() == STACK_WORDS
    }

    /// A fresh, zeroed stack region.
    pub fn new() -> (r: AlignedStack)
        ensures
            r.wf(),
            forall|i: int| 0 <= i < STACK_WORDS ==> r.mem@[i] == 0,
    {
        AlignedStack { mem: vec![0u32; STACK_WORDS] }
    }
}

/// An execution context: saved stack pointer, saved register block, owned
/// stack.
pub struct Process {
    pub sp: usize,
    pub regs: [u32; 8],
    pub stack: AlignedStack,
}

impl Process {
    pub open spec fn wf(self) -> bool {
        self.stack.wf()
    }

    /// Builds a context over its own stack, set up to start at `entry`: a
    /// synthetic exception frame at the top of the stack with zeroed
    /// argument and scratch registers, the program counter at the entry
    /// address and the instruction-set-mode bit set.
    pub fn new(stack: AlignedStack, entry: u32) -> (r: Process)
        requires
            stack.wf(),
        ensures
            r.wf(),
            r.sp == STACK_WORDS - FRAME_WORDS,
            forall|i: int| 0 <= i < 8 ==> r.regs@[i] == 0,
            frame_at(r.stack.mem@, r.sp as int) == (ExceptionFrame {
                r0: 0,
                r1: 0,
                r2: 0,
                r3: 0,
                r12: 0,
                lr: 0,
                pc: entry,
                xpsr: XPSR_THUMB,
            }),
    {
        let sp: usize = STACK_WORDS - FRAME_WORDS;
        let f = ExceptionFrame {
            r0: 0,
            r1: 0,
            r2: 0,
            r3: 0,
            r12: 0,
            lr: 0,
            pc: entry,
            xpsr: XPSR_THUMB,
        };
        let ghost mem0 = stack.mem@;
        let mut stack = stack;
        frame_store(&mut stack.mem, sp, &f);
        proof {
            lemma_frame_round_trip(mem0, sp as int, f);
        }
        Process { sp, regs: [0u32; 8], stack }
    }

    /// Runs the context: the platform performs the switch with the saved
    /// state; this records the stack pointer and register block the context
    /// yielded with.
    pub fn exec(&mut self, new_sp: usize, new_regs: [u32; 8])
        ensures
            *final(self) == (Process { sp: new_sp, regs: new_regs, ..*old(self) }),
    {
        self.sp = new_sp;
        self.regs = new_regs;
    }

    /// The saved stack pointer to hand to the context switch.
    pub fn saved_sp(&self) -> (r: usize)
        ensures
            r == self.sp,
    {
        self.sp
    }

    /// The saved register block to hand to the context switch.
    pub fn saved_regs(&self) -> (r: [u32; 8])
        ensures
            r == self.regs,
    {
        self.regs
    }
}

} // verus!
