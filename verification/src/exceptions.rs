//! Exception layer: the privilege/stack toggle and the exception-frame
//! contract.
//!
//! Two CPU modes take part in every context switch: kernel mode (privileged,
//! on the main stack) and task mode (unprivileged, on the running task's
//! private stack). The supervisor-call handler only requests the deferred
//! service exception; the deferred-service handler performs the actual
//! toggle. Which side the toggle starts from is read off the exception
//! return address the hardware pushed: one reserved sentinel encodes
//! "return using the main stack", the other "return using the process
//! stack". The handler flips the privilege control register, and answers
//! with the sentinel for the other side, so every completed supervisor call
//! strictly inverts the active mode.
//!
//! On exception entry the hardware stacks a fixed eight-word frame (r0-r3,
//! r12, lr, pc, xpsr); on exception return it unstacks the same words. The
//! frame store/load pair below is that contract over the kernel's model of
//! a stack as a vector of machine words.

use vstd::prelude::*;

verus! {

/// Exception return sentinel: return to thread mode on the main stack.
pub const EXC_RETURN_THREAD_MSP: u32 = 0xFFFF_FFF9;

/// Exception return sentinel: return to thread mode on the process stack.
pub const EXC_RETURN_THREAD_PSP: u32 = 0xFFFF_FFFD;

/// CONTROL register value for privileged execution on the main stack.
pub const CONTROL_PRIVILEGED: u32 = 0x0;

/// CONTROL register value for unprivileged execution on the process stack.
pub const CONTROL_UNPRIVILEGED: u32 = 0x3;

/// The two sides of the privilege boundary.
#[derive(Clone, Copy, PartialEq, Eq, Structural, Debug)]
pub enum CpuMode {
    /// Privileged, running the scheduler on the main stack.
    Kernel,
    /// Unprivileged, running a task on its private stack.
    Task,
}

/// The mode the next completed supervisor call switches to.
pub open spec fn toggled(m: CpuMode) -> CpuMode {
    match m {
        CpuMode::Kernel => CpuMode::Task,
        CpuMode::Task => CpuMode::Kernel,
    }
}

/// The mode reached after `n` consecutive completed supervisor calls.
pub open spec fn toggled_n(m: CpuMode, n: nat) -> CpuMode
    decreases n,
{
    if n == 0 {
        m
    } else {
        toggled(toggled_n(m, (n - 1) as nat))
    }
}

/// The CONTROL register value that belongs to a mode.
pub open spec fn control_for(m: CpuMode) -> u32 {
    match m {
        CpuMode::Kernel => CONTROL_PRIVILEGED,
        CpuMode::Task => CONTROL_UNPRIVILEGED,
    }
}

/// The exception return sentinel that resumes a mode.
pub open spec fn exc_return_for(m: CpuMode) -> u32 {
    match m {
        CpuMode::Kernel => EXC_RETURN_THREAD_MSP,
        CpuMode::Task => EXC_RETURN_THREAD_PSP,
    }
}

/// The processor state the exception layer governs: the active side of the
/// privilege boundary, the CONTROL register, and whether the deferred
/// service exception is pending.
pub struct Cpu {
    pub mode: CpuMode,
    pub control: u32,
    pub pendsv_pending: bool,
}

impl Cpu {
    /// The CONTROL register always encodes the active mode.
    pub open spec fn wf(self) -> bool {
        self.control == control_for(self.mode)
    }

    /// Reset state: privileged kernel mode, nothing pending.
    pub fn new() -> (r: Cpu)
        ensures
            r.wf(),
            r.mode is Kernel,
            !r.pendsv_pending,
    {
        Cpu { mode: CpuMode::Kernel, control: CONTROL_PRIVILEGED, pendsv_pending: false }
    }
}

/// Marks the deferred service exception pending; it runs once every
/// higher-priority interrupt has finished.
pub fn set_pendsv(cpu: &mut Cpu)
    ensures
        final(cpu).pendsv_pending,
        final(cpu).mode == old(cpu).mode,
        final(cpu).control == old(cpu).control,
{
    cpu.pendsv_pending = true;
}

/// Supervisor-call handler: it does not switch anything itself, it only
/// requests the deferred service exception.
pub fn svcall_handler(cpu: &mut Cpu)
    ensures
        final(cpu).pendsv_pending,
        final(cpu).mode == old(cpu).mode,
        final(cpu).control == old(cpu).control,
{
    set_pendsv(cpu);
}

/// Deferred-service handler: the single two-state toggle both switch paths
/// share. The side it starts from is read off the exception return sentinel
/// the hardware pushed; the handler flips the privilege control register and
/// answers with the sentinel that resumes the other side. A pipeline
/// synchronization barrier must separate the CONTROL write from the
/// mode-dependent return on the target; it has no counterpart in this model.
pub fn pendsv_handler(cpu: &mut Cpu, exc_return: u32) -> (r: u32)
    requires
        old(cpu).wf(),
        exc_return == exc_return_for(old(cpu).mode),
    ensures
        final(cpu).wf(),
        final(cpu).mode == toggled(old(cpu).mode),
        final(cpu).control == control_for(final(cpu).mode),
        !final(cpu).pendsv_pending,
        r == exc_return_for(final(cpu).mode),
{
    cpu.pendsv_pending = false;
    if exc_return == EXC_RETURN_THREAD_MSP {
        // Entered from the kernel side: drop privilege and resume the task
        // on the process stack.
        cpu.control = CONTROL_UNPRIVILEGED;
        cpu.mode = CpuMode::Task;
        EXC_RETURN_THREAD_PSP
    } else {
        // Entered from the task side: raise privilege and resume the kernel
        // on the main stack.
        cpu.control = CONTROL_PRIVILEGED;
        cpu.mode = CpuMode::Kernel;
        EXC_RETURN_THREAD_MSP
    }
}

/// Every completed supervisor call strictly inverts the active mode.
pub proof fn lemma_toggle_inverts(m: CpuMode)
    ensures
        toggled(m) != m,
        toggled(toggled(m)) == m,
{
}

/// Starting from kernel mode, `n` consecutive completed supervisor calls
/// land back in kernel mode exactly when `n` is even.
pub proof fn lemma_privilege_toggle_parity(n: nat)
    ensures
        toggled_n(CpuMode::Kernel, n) is Kernel <==> n % 2 == 0,
    decreases n,
{
    if n > 0 {
        lemma_privilege_toggle_parity((n - 1) as nat);
    }
}

/// The hardware's automatic exception frame: the registers stacked on
/// exception entry and unstacked on exception return, lowest address first.
#[derive(Clone, Copy, PartialEq, Eq, Structural, Debug)]
pub struct ExceptionFrame {
    pub r0: u32,
    pub r1: u32,
    pub r2: u32,
    pub r3: u32,
    pub r12: u32,
    pub lr: u32,
    pub pc: u32,
    pub xpsr: u32,
}

/// Number of words in the automatic exception frame.
pub const FRAME_WORDS: usize = 8;

/// The frame whose eight words sit at word offset `sp` of `mem`.
pub open spec fn frame_at(mem: Seq<u32>, sp: int) -> ExceptionFrame {
    ExceptionFrame {
        r0: mem[sp],
        r1: mem[sp + 1],
        r2: mem[sp + 2],
        r3: mem[sp + 3],
        r12: mem[sp + 4],
        lr: mem[sp + 5],
        pc: mem[sp + 6],
        xpsr: mem[sp + 7],
    }
}

/// `mem` with the eight words of `f` written at word offset `sp`.
pub open spec fn store_frame(mem: Seq<u32>, sp: int, f: ExceptionFrame) -> Seq<u32> {
    mem.update(sp, f.r0)
        .update(sp + 1, f.r1)
        .update(sp + 2, f.r2)
        .update(sp + 3, f.r3)
        .update(sp + 4, f.r12)
        .update(sp + 5, f.lr)
        .update(sp + 6, f.pc)
        .update(sp + 7, f.xpsr)
}

/// Stacks a frame: what the hardware does on exception entry, as a write of
/// eight words below the given stack top.
pub fn frame_store(mem: &mut Vec<u32>, sp: usize, f: &ExceptionFrame)
    requires
        sp + FRAME_WORDS <= old(mem)@.len(),
    ensures
        final(mem)@ == store_frame(old(mem)@, sp as int, *f),
{
    let n: usize = mem.len();
    assert(sp + FRAME_WORDS <= n);
    mem[sp] = f.r0;
    mem[sp + 1] = f.r1;
    mem[sp + 2] = f.r2;
    mem[sp + 3] = f.r3;
    mem[sp + 4] = f.r12;
    mem[sp + 5] = f.lr;
    mem[sp + 6] = f.pc;
    mem[sp + 7] = f.xpsr;
}

/// Unstacks a frame: what the hardware does on exception return, reading
/// the same eight words back.
pub fn frame_load(mem: &Vec<u32>, sp: usize) -> (f: ExceptionFrame)
    requires
        sp + FRAME_WORDS <= mem@.len(),
    ensures
        f == frame_at(mem@, sp as int),
{
    let n: usize = mem.len();
    assert(sp + FRAME_WORDS <= n);
    ExceptionFrame {
        r0: mem[sp],
        r1: mem[sp + 1],
        r2: mem[sp + 2],
        r3: mem[sp + 3],
        r12: mem[sp + 4],
        lr: mem[sp + 5],
        pc: mem[sp + 6],
        xpsr: mem[sp + 7],
    }
}

/// Context round trip: unstacking reads back exactly the frame that was
/// stacked, and stacking touches nothing outside its eight words. A context
/// that yields and is later resumed therefore sees register state identical
/// to the instant it yielded.
pub proof fn lemma_frame_round_trip(mem: Seq<u32>, sp: int, f: ExceptionFrame)
    requires
        0 <= sp,
        sp + FRAME_WORDS <= mem.len(),
    ensures
        frame_at(store_frame(mem, sp, f), sp) == f,
        store_frame(mem, sp, f).len() == mem.len(),
        forall|i: int|
            0 <= i < mem.len() && !(sp <= i < sp + FRAME_WORDS) ==> store_frame(
                mem,
                sp,
                f,
            )[i] == mem[i],
{
}

} // verus!
