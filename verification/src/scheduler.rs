//! The round-robin scheduler.
//!
//! The scheduler owns the ready queue and is otherwise stateless but for two
//! protocol flags: `started` (the run loop has begun; no further task
//! admission) and `running` (the head task is out on a context switch whose
//! outcome has not been reported back yet).
//!
//! Each full pass over one task has exactly two phases: run-or-check, then
//! rotate. `exec` performs the first phase on the head task and — when the
//! head was blocked — already rotates; when the head is ready, the caller
//! performs the actual context switch and completes the pass through
//! `switch_done`, which records the saved stack pointer and rotates. A
//! blocked task is thus skipped but still rotated, so it keeps occupying
//! one slot per pass and the ready tasks' relative order never changes.

use crate::linked_list::LinkedList;
use crate::linked_list::ListItem;
use crate::task::Task;
use crate::task::TaskState;
use crate::task::woken;
use vstd::prelude::*;

verus! {

/// One completed scheduler pass over the head of `q`: the head is visited —
/// its update is `f` — and moves to the back; everyone else keeps order.
pub open spec fn pass<A>(q: Seq<A>, f: spec_fn(A) -> A) -> Seq<A>
    recommends
        q.len() > 0,
{
    q.drop_first().push(f(q[0]))
}

/// Consecutive passes, the `i`-th applying effect `fs[i]` to the task it
/// visits.
pub open spec fn passes<A>(q: Seq<A>, fs: Seq<spec_fn(A) -> A>) -> Seq<A>
    decreases fs.len(),
{
    if fs.len() == 0 {
        q
    } else {
        passes(pass(q, fs[0]), fs.drop_first())
    }
}

/// The visit effect of a pass at tick value `tick` on a task that is not
/// run: the wake check.
pub open spec fn wake_at(tick: u32) -> spec_fn(Task) -> Task {
    |t: Task| woken(t, tick)
}

/// The scheduler: the ready queue plus the two protocol flags.
pub struct Scheduler {
    pub ready: LinkedList<Task>,
    pub started: bool,
    pub running: bool,
}

impl Scheduler {
    /// While a switch is outstanding the queue is non-empty (its head is
    /// the running task) and the run loop has begun.
    pub open spec fn wf(self) -> bool {
        self.running ==> self.started && self.ready@.len() > 0
    }

    pub fn new() -> (r: Scheduler)
        ensures
            r.ready@ == Seq::<Task>::empty(),
            !r.started,
            !r.running,
            r.wf(),
    {
        Scheduler { ready: LinkedList::new(), started: false, running: false }
    }

    /// Admits a task at the back of the ready queue. Valid only before the
    /// run loop first executes: there is no runtime task admission.
    pub fn push_back(&mut self, item: ListItem<Task>)
        requires
            !old(self).started,
            old(self).wf(),
        ensures
            final(self).ready@ == old(self).ready@.push(item.value),
            final(self).started == old(self).started,
            final(self).running == old(self).running,
            final(self).wf(),
    {
        self.ready.push_back(item);
    }

    /// The head task: the task currently running or next to run, `None`
    /// only on an empty queue. A running task reaches its own control block
    /// through this to register a wake deadline before yielding.
    pub fn current_task(&mut self) -> (r: Option<&mut Task>)
        ensures
            old(self).ready@.len() == 0 ==> r is None && *final(self) == *old(self),
            old(self).ready@.len() > 0 ==> (r matches Some(t) && *t == old(self).ready@[0]
                && final(self).ready@ == old(self).ready@.update(0, *final(t))
                && final(self).started == old(self).started
                && final(self).running == old(self).running),
    {
        self.ready.front_mut()
    }

    /// First phase of one scheduling pass, at tick value `tick`.
    ///
    /// An empty ready queue is a fatal configuration error — a kernel with
    /// no task, not even an idle one, cannot make progress — and is ruled
    /// out here; the caller must admit an always-ready idle task.
    ///
    /// If the head is ready the pass stays open: the caller performs the
    /// context switch with the head's saved state and completes the pass
    /// through `switch_done`. If the head is blocked it is wake-checked,
    /// not run, and the pass completes at once with the rotation.
    pub fn exec(&mut self, tick: u32) -> (run: bool)
        requires
            old(self).wf(),
            !old(self).running,
            old(self).ready@.len() > 0,
        ensures
            final(self).wf(),
            final(self).started,
            run == (old(self).ready@[0].state is Ready),
            run ==> final(self).running && final(self).ready@ == old(self).ready@,
            !run ==> !final(self).running && final(self).ready@ == pass(
                old(self).ready@,
                wake_at(tick),
            ),
    {
        self.started = true;
        let run = {
            let head = self.ready.front_mut().unwrap();
            head.exec(tick)
        };
        if run {
            self.running = true;
            proof {
                assert(self.ready@ =~= old(self).ready@);
            }
        } else {
            self.ready.rotate();
            proof {
                assert(self.ready@ =~= pass(old(self).ready@, wake_at(tick)));
            }
        }
        run
    }

    /// Second phase of a pass whose head task ran: records the stack
    /// pointer and register block the switch handed back, then rotates.
    pub fn switch_done(&mut self, new_sp: usize, new_regs: [u32; 8])
        requires
            old(self).wf(),
            old(self).running,
        ensures
            final(self).wf(),
            final(self).started,
            !final(self).running,
            final(self).ready@ == pass(
                old(self).ready@,
                (|t: Task| (Task { sp: new_sp, regs: new_regs, ..t })),
            ),
    {
        {
            let head = self.ready.front_mut().unwrap();
            head.switch_done(new_sp, new_regs);
        }
        self.ready.rotate();
        self.running = false;
        proof {
            assert(self.ready@ =~= pass(
                old(self).ready@,
                (|t: Task| (Task { sp: new_sp, regs: new_regs, ..t })),
            ));
        }
    }
}

impl Default for Scheduler {
    fn default() -> (r: Self)
        ensures
            r.ready@ == Seq::<Task>::empty(),
            !r.started,
            !r.running,
    {
        Self::new()
    }
}

/// Round-robin FIFO order: whatever each visit does to the task it visits,
/// the pass number `k` (counting from zero) visits the task that was
/// enqueued at position `k` — tasks pushed in some order are visited in
/// exactly that order, one per pass.
pub proof fn lemma_fifo_rotation<A>(q: Seq<A>, fs: Seq<spec_fn(A) -> A>, k: int)
    requires
        0 <= k < q.len(),
        k <= fs.len(),
    ensures
        passes(q, fs.take(k))[0] == q[k],
    decreases k,
{
    if k == 0 {
        assert(fs.take(0).len() == 0);
    } else {
        let q1 = pass(q, fs[0]);
        let fs1 = fs.drop_first();
        assert(fs.take(k)[0] == fs[0]);
        assert(fs.take(k).drop_first() =~= fs1.take(k - 1));
        lemma_fifo_rotation(q1, fs1, k - 1);
        assert(q1[k - 1] == q[k]);
    }
}

/// The queue after any `k` consecutive passes, in full: the `k` oldest
/// tasks have each been visited once, in enqueue order, and stand at the
/// back in that same order (each updated by its own pass's effect); the
/// tasks not yet visited stand at the front, untouched and in their
/// original order. No pass loses, duplicates or reorders anything.
pub proof fn lemma_passes_shape<A>(q: Seq<A>, fs: Seq<spec_fn(A) -> A>)
    requires
        fs.len() <= q.len(),
    ensures
        passes(q, fs) == q.skip(fs.len() as int) + Seq::new(
            fs.len(),
            |i: int| (fs[i])(q[i]),
        ),
    decreases fs.len(),
{
    let k = fs.len() as int;
    let n = q.len() as int;
    if k == 0 {
        assert(passes(q, fs) =~= q.skip(0) + Seq::new(0, |i: int| (fs[i])(q[i])));
    } else {
        let q1 = pass(q, fs[0]);
        let fs1 = fs.drop_first();
        lemma_passes_shape(q1, fs1);
        let lhs = q1.skip(k - 1) + Seq::new((k - 1) as nat, |i: int| (fs1[i])(q1[i]));
        let rhs = q.skip(k) + Seq::new(k as nat, |i: int| (fs[i])(q[i]));
        assert forall|j: int| 0 <= j < n implies lhs[j] == rhs[j] by {
            if j < n - k {
                // not yet visited: original task, shifted one to the front
                assert(q1[k - 1 + j] == q[k + j]);
            } else if j == n - k {
                // the task the first pass visited, now oldest at the back
                assert(q1[k - 1 + j] == (fs[0])(q[0]));
            } else {
                // visited by one of the later passes
                let i = j - (n - k) - 1;
                assert(lhs[j] == (fs1[i])(q1[i]));
                assert(q1[i] == q[i + 1]);
            }
        }
        assert(lhs =~= rhs);
    }
}

/// A blocked task whose deadline has not arrived is skipped but keeps its
/// queue slot: the pass moves it to the back unchanged — still blocked, the
/// deadline still pending — and every other task's relative order is
/// untouched.
pub proof fn lemma_blocked_but_rotated(q: Seq<Task>, tick: u32, d: u32)
    requires
        q.len() > 0,
        q[0].state is Blocked,
        q[0].wait_until == Some(d),
        tick < d,
    ensures
        pass(q, wake_at(tick)) == q.drop_first().push(q[0]),
{
    assert(woken(q[0], tick) == q[0]);
}

/// The wake transition: once the tick counter has reached the deadline, the
/// pass that visits the blocked task turns it ready and clears the
/// deadline. The woken task sits at the back of the queue, so it becomes
/// eligible for execution on the pass that next reaches it.
pub proof fn lemma_wake_transition(q: Seq<Task>, tick: u32, d: u32)
    requires
        q.len() > 0,
        q[0].state is Blocked,
        q[0].wait_until == Some(d),
        tick >= d,
    ensures
        pass(q, wake_at(tick)).last() == woken(q[0], tick),
        pass(q, wake_at(tick)).last().state is Ready,
        pass(q, wake_at(tick)).last().wait_until is None,
{
}

} // verus!
