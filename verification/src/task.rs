//! The syscall-driven yield path and the idle task.
//!
//! Vector 0x80 is the ring-3-callable system-call gate; the one call in
//! scope is `yield`, which hands the CPU to the next ready task in
//! round-robin order. A task's saved context is restored untouched when
//! control comes back: after every other task has yielded once, the
//! original task is running again with its own context, never a stale
//! one. The idle task cycles forever through halt, a diagnostic mark and
//! a yield; the halt and the mark are hardware actions the unverified
//! shell performs.

use vstd::prelude::*;

verus! {

/// The system-call number of the cooperative yield.
pub const SYS_YIELD: u32 = 0;

/// The saved execution context of one task: the privilege ring it runs
/// at, restored exactly by the interrupt return that resumes it.
#[derive(Clone, Copy, PartialEq, Eq, Structural, Debug)]
pub struct TaskContext {
    pub cpl: u32,
}

/// The round-robin task set: each task's saved context and the index of
/// the task that currently owns the CPU.
pub struct TaskSet {
    pub contexts: Vec<TaskContext>,
    pub current: usize,
}

/// The task that owns the CPU after one yield: the next index, wrapping
/// to the front past the last task.
pub open spec fn spec_next_task(current: int, count: int) -> int {
    if current + 1 == count {
        0
    } else {
        current + 1
    }
}

/// The current task after `steps` consecutive yields.
pub open spec fn spec_rotate(current: int, count: int, steps: nat) -> int
    decreases steps,
{
    if steps == 0 {
        current
    } else {
        spec_next_task(spec_rotate(current, count, (steps - 1) as nat), count)
    }
}

/// The task set after one yield: only the index of the running task
/// moves.
pub open spec fn spec_yield(ts: TaskSet) -> TaskSet {
    TaskSet {
        contexts: ts.contexts,
        current: spec_next_task(ts.current as int, ts.contexts@.len() as int) as usize,
    }
}

/// The task set after `steps` consecutive yields.
pub open spec fn spec_yield_n(ts: TaskSet, steps: nat) -> TaskSet
    decreases steps,
{
    if steps == 0 {
        ts
    } else {
        spec_yield(spec_yield_n(ts, (steps - 1) as nat))
    }
}

impl TaskSet {
    pub open spec fn wf(self) -> bool {
        &&& self.contexts@.len() >= 1
        &&& self.current < self.contexts@.len()
    }

    /// A fresh task set with task 0 running.
    pub fn new(contexts: Vec<TaskContext>) -> (t: TaskSet)
        requires
            contexts@.len() >= 1,
        ensures
            t.wf(),
            t.contexts@ == contexts@,
            t.current == 0,
    {
        TaskSet { contexts, current: 0 }
    }

    /// Hand the CPU to the next ready task. No saved context changes:
    /// the yielding task's continuation is resumed, later, exactly as it
    /// was left.
    pub fn yield_to_next(&mut self)
        requires
            old(self).wf(),
        ensures
            final(self).wf(),
            final(self).contexts == old(self).contexts,
            final(self).current == spec_next_task(
                old(self).current as int,
                old(self).contexts@.len() as int,
            ),
    {
        let count = self.contexts.len();
        if self.current + 1 == count {
            self.current = 0;
        } else {
            self.current = self.current + 1;
        }
    }
}

/// The handler bound to the syscall vector. The second argument carries
/// the system-call number; only `yield` is in scope, and any other
/// number leaves the task set untouched. The error-code word of the
/// frame is ignored.
pub fn system_call(tasks: &mut TaskSet, error_code: u32, syscall_nr: u32)
    requires
        old(tasks).wf(),
    ensures
        final(tasks).wf(),
        final(tasks).contexts == old(tasks).contexts,
        syscall_nr == SYS_YIELD ==> final(tasks).current == spec_next_task(
            old(tasks).current as int,
            old(tasks).contexts@.len() as int,
        ),
        syscall_nr != SYS_YIELD ==> final(tasks).current == old(tasks).current,
{
    if syscall_nr == SYS_YIELD {
        tasks.yield_to_next();
    }
}

/// Issue the yield system call: a software interrupt through the syscall
/// gate that hands the CPU to the next ready task.
pub fn sys_yield(tasks: &mut TaskSet)
    requires
        old(tasks).wf(),
    ensures
        final(tasks).wf(),
        final(tasks).contexts == old(tasks).contexts,
        final(tasks).current == spec_next_task(
            old(tasks).current as int,
            old(tasks).contexts@.len() as int,
        ),
        *final(tasks) == spec_yield(*old(tasks)),
{
    system_call(tasks, 0, SYS_YIELD);
    proof {
        vstd::std_specs::vec::axiom_spec_len(&old(tasks).contexts);
    }
}

/// Rotation splits over consecutive runs of yields.
proof fn lemma_rotate_split(current: int, count: int, first: nat, rest: nat)
    ensures
        spec_rotate(current, count, first + rest) == spec_rotate(
            spec_rotate(current, count, first),
            count,
            rest,
        ),
    decreases rest,
{
    if rest != 0 {
        lemma_rotate_split(current, count, first, (rest - 1) as nat);
        assert(first + rest - 1 == first + ((rest - 1) as nat));
    }
}

/// While no wrap occurs, rotation is plain increment.
proof fn lemma_rotate_no_wrap(current: int, count: int, steps: nat)
    requires
        0 <= current,
        current + steps < count,
    ensures
        spec_rotate(current, count, steps) == current + steps,
    decreases steps,
{
    if steps != 0 {
        lemma_rotate_no_wrap(current, count, (steps - 1) as nat);
    }
}

/// Liveness of the rotation: once every one of the `count` tasks has
/// yielded in turn, the task that yielded first owns the CPU again.
pub proof fn lemma_yield_round_robin(current: int, count: int)
    requires
        0 <= current < count,
    ensures
        spec_rotate(current, count, count as nat) == current,
{
    let to_last = (count - 1 - current) as nat;
    lemma_rotate_no_wrap(current, count, to_last);
    assert(spec_rotate(current, count, to_last) == count - 1);
    lemma_rotate_split(current, count, to_last, 1);
    assert(spec_rotate(current, count, to_last + 1) == 0);
    lemma_rotate_no_wrap(0, count, current as nat);
    lemma_rotate_split(current, count, to_last + 1, current as nat);
    assert(to_last + 1 + current == count);
}

/// Yields keep the task set well formed and only rotate the running
/// index; every saved context stays word-for-word what it was.
proof fn lemma_yield_n_shape(ts: TaskSet, steps: nat)
    requires
        ts.wf(),
    ensures
        spec_yield_n(ts, steps).wf(),
        spec_yield_n(ts, steps).contexts == ts.contexts,
        spec_yield_n(ts, steps).current as int == spec_rotate(
            ts.current as int,
            ts.contexts@.len() as int,
            steps,
        ),
    decreases steps,
{
    vstd::std_specs::vec::axiom_spec_len(&ts.contexts);
    if steps != 0 {
        lemma_yield_n_shape(ts, (steps - 1) as nat);
    }
}

/// Liveness of the yield path: after every one of the tasks has yielded
/// once, the task set is exactly what it was — the first task owns the
/// CPU again and resumes with its own saved context, never a stale one.
pub proof fn lemma_yield_round_trip(ts: TaskSet)
    requires
        ts.wf(),
    ensures
        spec_yield_n(ts, ts.contexts@.len() as nat) == ts,
{
    let n = ts.contexts@.len() as nat;
    lemma_yield_n_shape(ts, n);
    lemma_yield_round_robin(ts.current as int, ts.contexts@.len() as int);
}

/// What the idle task does within one turn of its loop.
#[derive(Clone, Copy, PartialEq, Eq, Structural, Debug)]
pub enum IdleAction {
    /// Re-enable interrupts and halt the CPU until one arrives.
    HaltUntilInterrupt,
    /// Print the diagnostic mark.
    PrintMark,
    /// Hand the CPU away through the yield system call.
    YieldCpu,
}

/// Where the idle task stands in its loop.
#[derive(Clone, Copy, PartialEq, Eq, Structural, Debug)]
pub enum IdlePhase {
    Halting,
    Reporting,
    Yielding,
}

/// The next action the idle task takes in a phase. There is no
/// terminating phase: the result always names a next phase, so the idle
/// task never leaves its cycle and always remains schedulable.
pub fn idle(phase: IdlePhase) -> (step: (IdleAction, IdlePhase))
    ensures
        phase == IdlePhase::Halting ==> step == ((
            IdleAction::HaltUntilInterrupt,
            IdlePhase::Reporting,
        )),
        phase == IdlePhase::Reporting ==> step == ((IdleAction::PrintMark, IdlePhase::Yielding)),
        phase == IdlePhase::Yielding ==> step == ((IdleAction::YieldCpu, IdlePhase::Halting)),
{
    match phase {
        IdlePhase::Halting => (IdleAction::HaltUntilInterrupt, IdlePhase::Reporting),
        IdlePhase::Reporting => (IdleAction::PrintMark, IdlePhase::Yielding),
        IdlePhase::Yielding => (IdleAction::YieldCpu, IdlePhase::Halting),
    }
}

} // verus!
