//! A bump-pointer byte-range allocator.
//!
//! The heap is a fixed address range in otherwise unused RAM; the allocator
//! hands out aligned sub-ranges by moving a cursor forward and never
//! reclaims anything. Out of space is signalled by the null address — the
//! allocator never fails silently by overwriting adjacent memory. Shared
//! kernel state, so the working copy sits behind a mutex.

use crate::mutex::Mutex;
use vstd::prelude::*;

verus! {

/// First byte of the heap range.
pub const HEAP_START: usize = 0x2001_0000;

/// Bytes in the heap range. The range must be kept free by the surrounding
/// image; that placement is not checkable here.
pub const HEAP_SIZE: usize = 1024;

/// The smallest multiple of `align` that is at least `addr`.
pub open spec fn align_up(addr: int, align: int) -> int
    recommends
        align >= 1,
{
    ((addr + align - 1) / align) * align
}

/// A forward-only cursor over a byte range: everything below `head` has
/// been handed out, everything from `head` up to `end` is still free.
#[derive(Clone, Copy, PartialEq, Eq, Structural, Debug)]
pub struct BumpPointerAlloc {
    pub head: usize,
    pub end: usize,
}

impl BumpPointerAlloc {
    pub open spec fn wf(self) -> bool {
        self.head <= self.end
    }

    pub fn new() -> (r: BumpPointerAlloc)
        ensures
            r.head == HEAP_START,
            r.end == HEAP_START + HEAP_SIZE,
            r.wf(),
    {
        BumpPointerAlloc { head: HEAP_START, end: HEAP_START + HEAP_SIZE }
    }

    /// Carves `size` bytes at the next boundary of `align` out of the free
    /// range and moves the cursor past them. Returns the null address
    /// exactly when the aligned block would not fit; the cursor then stays
    /// where it was.
    pub fn allocate(&mut self, size: usize, align: usize) -> (r: usize)
        requires
            old(self).wf(),
            align >= 1,
        ensures
            final(self).wf(),
            final(self).end == old(self).end,
            ({
                let start = align_up(old(self).head as int, align as int);
                if start + size <= old(self).end {
                    r == start && r % align == 0 && old(self).head <= r && final(self).head
                        == start + size
                } else {
                    r == 0 && *final(self) == *old(self)
                }
            }),
    {
        let head: u128 = self.head as u128;
        let a: u128 = align as u128;
        // move the start up to the next alignment boundary
        let q: u128 = (head + a - 1) / a;
        proof {
            assert((q as int) * (a as int) <= head as int + a as int - 1 && (q as int) * (a as int)
                % (a as int) == 0 && head as int <= (q as int) * (a as int)) by (nonlinear_arith)
                requires
                    head as int >= 0,
                    a as int >= 1,
                    q as int == (head as int + a as int - 1) / (a as int),
            ;
        }
        let start: u128 = q * a;
        proof {
            assert(start as int == align_up(old(self).head as int, align as int));
        }
        if start + (size as u128) > self.end as u128 {
            // out of space: the null address is the signal
            0
        } else {
            let r = start as usize;
            self.head = r + size;
            r
        }
    }

    /// This allocator never deallocates.
    pub fn deallocate(&mut self, _addr: usize)
        ensures
            *final(self) == *old(self),
    {
    }
}

/// Allocation through the shared heap: takes the mutex, bumps the cursor,
/// releases.
pub fn heap_alloc(heap: &mut Mutex<BumpPointerAlloc>, size: usize, align: usize) -> (r: usize)
    requires
        !old(heap).locked(),
        old(heap).value().wf(),
        align >= 1,
    ensures
        !final(heap).locked(),
        final(heap).value().wf(),
        final(heap).value().end == old(heap).value().end,
        ({
            let start = align_up(old(heap).value().head as int, align as int);
            if start + size <= old(heap).value().end {
                r == start && r % align == 0 && final(heap).value().head == start + size
            } else {
                r == 0 && final(heap).value() == old(heap).value()
            }
        }),
{
    let guard = heap.lock();
    let mut a = *heap.get(&guard);
    let r = a.allocate(size, align);
    heap.set(&guard, a);
    heap.unlock(guard);
    r
}

/// Deallocation through the shared heap: accepted and ignored.
pub fn heap_dealloc(heap: &mut Mutex<BumpPointerAlloc>, addr: usize)
    requires
        !old(heap).locked(),
    ensures
        !final(heap).locked(),
        final(heap).value() == old(heap).value(),
{
    let guard = heap.lock();
    let mut a = *heap.get(&guard);
    a.deallocate(addr);
    heap.set(&guard, a);
    heap.unlock(guard);
}

} // verus!
