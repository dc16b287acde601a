//! Priority-ordered task dispatch with priority-ceiling resource
//! locking.
//!
//! A fixed table of tasks is registered once at start-up, each with a
//! static priority and a trigger.  Hardware edges and the periodic timer
//! mark their bound task pending; a running task may spawn others.  The
//! dispatcher always picks the highest-priority pending task whose
//! priority exceeds the current *floor* — the priority of the task on
//! top of the run stack, raised further by every priority ceiling
//! currently locked.  A dispatched task runs to completion: it is only
//! ever stacked on top of strictly lower-priority work, so two tasks of
//! equal priority never interleave, and a task holding a resource whose
//! ceiling is `c` can never be interrupted by any task of priority `c`
//! or below — in particular by any other task that accesses the same
//! resource.  That is the exclusive-access guarantee, and it is proved
//! here ([`lemma_ceiling_blocks`], [`lemma_release_unblocks`]) rather
//! than enforced by a runtime mutex.

use vstd::prelude::*;

verus! {

/// What causes a task to become pending.
#[derive(Clone, Copy, PartialEq, Eq, Structural, Debug)]
pub enum Trigger {
    /// Bound to a hardware interrupt source.
    Interrupt(u8),
    /// Bound to the periodic timer.
    Periodic,
    /// Only ever enqueued by other tasks (software task).
    SpawnOnly,
}

/// One statically registered task: a priority (higher is more urgent;
/// priority 0 is the idle context and never dispatched) and a trigger.
#[derive(Clone, Copy, PartialEq, Eq, Structural, Debug)]
pub struct TaskDesc {
    pub priority: u8,
    pub trigger: Trigger,
}

/// A piece of shared state lent out under the priority-ceiling
/// protocol.  The ceiling must be the highest priority of any task that
/// ever accesses the value; lock that ceiling on the scheduler for the
/// span of each access from a task whose priority lies below it.
pub struct Resource<T> {
    ceiling: u8,
    value: T,
}

impl<T> Resource<T> {
    /// The registered ceiling priority.
    pub closed spec fn ceiling_spec(self) -> u8 {
        self.ceiling
    }

    /// The wrapped value.
    pub closed spec fn value_spec(self) -> T {
        self.value
    }

    /// Wraps `value` with the given ceiling.
    pub fn new(ceiling: u8, value: T) -> (r: Self)
        ensures
            r.ceiling_spec() == ceiling,
            r.value_spec() == value,
    {
        Resource { ceiling, value }
    }

    /// The registered ceiling priority.
    pub fn ceiling(&self) -> (r: u8)
        ensures
            r == self.ceiling_spec(),
    {
        self.ceiling
    }

    /// Shared access to the value.
    pub fn borrow(&self) -> (r: &T)
        ensures
            *r == self.value_spec(),
    {
        &self.value
    }

    /// Exclusive access to the value; hold the ceiling lock while the
    /// borrow lives whenever another task can reach this resource.
    pub fn borrow_mut(&mut self) -> (r: &mut T)
        ensures
            *r == old(self).value_spec(),
            final(self).value_spec() == *final(r),
            final(self).ceiling_spec() == old(self).ceiling_spec(),
    {
        &mut self.value
    }
}

/// One run-stack entry: the dispatched task and how many ceiling locks
/// were outstanding when it was dispatched (it must return to that count
/// before it completes).
struct Frame {
    task: usize,
    locks_below: usize,
}

/// The scheduler state: the static task table, the pending flags, the
/// run stack of preempted-and-running tasks, and the stack of locked
/// priority ceilings.
pub struct Scheduler {
    tasks: Vec<TaskDesc>,
    pending: Vec<bool>,
    stack: Vec<Frame>,
    ceilings: Vec<u8>,
}

impl Scheduler {
    /// The static task table.
    pub closed spec fn tasks_spec(self) -> Seq<TaskDesc> {
        self.tasks@
    }

    /// The pending flag of each task.
    pub closed spec fn pending_spec(self) -> Seq<bool> {
        self.pending@
    }

    /// The task ids on the run stack, bottom first.
    pub closed spec fn run_stack(self) -> Seq<int> {
        Seq::new(self.stack@.len(), |k: int| self.stack@[k].task as int)
    }

    /// For each run-stack entry, the number of ceiling locks outstanding
    /// when it was dispatched.
    pub closed spec fn frame_locks(self) -> Seq<int> {
        Seq::new(self.stack@.len(), |k: int| self.stack@[k].locks_below as int)
    }

    /// The locked priority ceilings, oldest first.
    pub closed spec fn ceiling_stack(self) -> Seq<u8> {
        self.ceilings@
    }

    /// Number of registered tasks.
    pub open spec fn task_count(self) -> int {
        self.tasks_spec().len() as int
    }

    /// The static priority of task `t`.
    pub open spec fn priority_of(self, t: int) -> u8 {
        self.tasks_spec()[t].priority
    }

    /// Whether task `t` is marked pending.
    pub open spec fn is_pending(self, t: int) -> bool {
        self.pending_spec()[t]
    }

    /// The priority of the task currently holding the CPU (0 when the
    /// idle context runs, i.e. the run stack is empty).
    pub open spec fn base_floor(self) -> int {
        if self.run_stack().len() == 0 {
            0
        } else {
            self.priority_of(self.run_stack().last()) as int
        }
    }

    /// The effective priority floor: the running task's priority raised
    /// by the highest locked ceiling.  Only a pending task whose
    /// priority exceeds this floor may be dispatched.
    pub open spec fn floor(self) -> int {
        let raised = if self.ceiling_stack().len() == 0 {
            0
        } else {
            self.ceiling_stack().last() as int
        };
        if self.base_floor() > raised {
            self.base_floor()
        } else {
            raised
        }
    }

    /// Ceiling locks the task on top of the run stack has taken and not
    /// yet released.
    pub open spec fn held_locks(self) -> int {
        self.ceiling_stack().len() - (if self.run_stack().len() == 0 {
            0
        } else {
            self.frame_locks().last()
        })
    }

    /// Task `t` could be dispatched right now.
    pub open spec fn eligible(self, t: int) -> bool {
        &&& 0 <= t < self.task_count()
        &&& self.is_pending(t)
        &&& self.priority_of(t) as int > self.floor()
    }

    /// Structural invariant: the flag table parallels the task table;
    /// run-stack entries name real tasks in strictly increasing priority
    /// order (so equal-priority tasks never interleave); lock counts
    /// grow monotonically up the stack and never exceed the locks
    /// actually outstanding; the idle context holds no locks.
    pub open spec fn wf(self) -> bool {
        &&& self.pending_spec().len() == self.tasks_spec().len()
        &&& self.run_stack().len() == self.frame_locks().len()
        &&& forall|k: int| 0 <= k < self.run_stack().len() ==> 0 <= #[trigger] self.run_stack()[k]
            < self.task_count()
        &&& forall|k1: int, k2: int| 0 <= k1 < k2 < self.run_stack().len() ==> (
        self.priority_of(#[trigger] self.run_stack()[k1]) as int) < (self.priority_of(
            #[trigger] self.run_stack()[k2],
        ) as int)
        &&& forall|k1: int, k2: int| 0 <= k1 <= k2 < self.frame_locks().len() ==> (
        #[trigger] self.frame_locks()[k1]) <= (#[trigger] self.frame_locks()[k2])
        &&& forall|k: int| 0 <= k < self.frame_locks().len() ==> 0 <= (
        #[trigger] self.frame_locks()[k]) <= self.ceiling_stack().len()
        &&& (self.run_stack().len() == 0 ==> self.ceiling_stack().len() == 0)
        &&& (self.run_stack().len() > 0 ==> self.frame_locks()[0] == 0)
        &&& forall|k1: int, k2: int| 0 <= k1 < k2 < self.ceiling_stack().len() ==> (
        #[trigger] self.ceiling_stack()[k1]) <= (#[trigger] self.ceiling_stack()[k2])
    }

    /// A scheduler over the given task table: nothing pending, the idle
    /// context holding the CPU, no locks.
    pub fn new(tasks: Vec<TaskDesc>) -> (r: Self)
        ensures
            r.wf(),
            r.tasks_spec() == tasks@,
            forall|t: int| 0 <= t < r.task_count() ==> !(#[trigger] r.pending_spec()[t]),
            r.run_stack().len() == 0,
            r.ceiling_stack().len() == 0,
    {
        let n = tasks.len();
        let mut pending: Vec<bool> = Vec::new();
        let mut i: usize = 0;
        while i < n
            invariant
                i <= n,
                pending@.len() == i,
                forall|t: int| 0 <= t < i ==> !(#[trigger] pending@[t]),
            decreases n - i,
        {
            pending.push(false);
            i = i + 1;
        }
        Scheduler { tasks, pending, stack: Vec::new(), ceilings: Vec::new() }
    }

    /// The static priority of task `task`.
    pub fn priority(&self, task: usize) -> (r: u8)
        requires
            task < self.task_count(),
        ensures
            r == self.priority_of(task as int),
    {
        self.tasks[task].priority
    }

    /// Marks `task` pending: a hardware trigger fired for it, or a
    /// running task (or the idle context) enqueued it.  Non-blocking;
    /// the task runs once its priority exceeds the floor.  Spawning a
    /// task that is already pending coalesces with the earlier request.
    pub fn spawn(&mut self, task: usize)
        requires
            old(self).wf(),
            task < old(self).task_count(),
        ensures
            final(self).wf(),
            final(self).tasks_spec() == old(self).tasks_spec(),
            final(self).pending_spec() == old(self).pending_spec().update(task as int, true),
            final(self).run_stack() == old(self).run_stack(),
            final(self).frame_locks() == old(self).frame_locks(),
            final(self).ceiling_stack() == old(self).ceiling_stack(),
    {
        self.pending.set(task, true);
        proof {
            assert(final(self).run_stack() =~= old(self).run_stack());
            assert(final(self).frame_locks() =~= old(self).frame_locks());
        }
    }

    /// The current effective priority floor.
    pub fn current_floor(&self) -> (r: u8)
        requires
            self.wf(),
        ensures
            r as int == self.floor(),
    {
        let base: u8 = if self.stack.len() == 0 {
            0
        } else {
            let top = self.stack.len() - 1;
            proof {
                assert(self.run_stack()[top as int] == self.stack@[top as int].task as int);
                assert(0 <= self.run_stack()[top as int] < self.task_count());
            }
            self.tasks[self.stack[top].task].priority
        };
        let raised: u8 = if self.ceilings.len() == 0 {
            0
        } else {
            self.ceilings[self.ceilings.len() - 1]
        };
        if base > raised {
            base
        } else {
            raised
        }
    }

    /// How many dispatched tasks are stacked (0: the idle context holds
    /// the CPU).
    pub fn stack_depth(&self) -> (r: usize)
        ensures
            r == self.run_stack().len(),
    {
        self.stack.len()
    }

    /// How many ceiling locks the task on top of the run stack still
    /// holds.
    pub fn held_lock_count(&self) -> (r: usize)
        requires
            self.wf(),
        ensures
            r as int == self.held_locks(),
    {
        if self.stack.len() == 0 {
            self.ceilings.len()
        } else {
            let top = self.stack.len() - 1;
            proof {
                assert(self.frame_locks()[top as int] == self.stack@[top as int].locks_below as int);
            }
            self.ceilings.len() - self.stack[top].locks_below
        }
    }

    /// Picks the task to run now: the highest-priority pending task
    /// whose priority exceeds the current floor (lowest index on a tie),
    /// clears its pending flag and stacks it on top of the preempted
    /// work.  Returns `None` — leaving the state untouched — exactly
    /// when no pending task may preempt.
    pub fn dispatch(&mut self) -> (r: Option<usize>)
        requires
            old(self).wf(),
        ensures
            final(self).wf(),
            final(self).tasks_spec() == old(self).tasks_spec(),
            final(self).ceiling_stack() == old(self).ceiling_stack(),
            r is None ==> *final(self) == *old(self) && (forall|t: int|
                !(#[trigger] old(self).eligible(t))),
            r is Some ==> {
                let t = r->Some_0 as int;
                &&& old(self).eligible(t)
                &&& forall|u: int| #[trigger] old(self).eligible(u) ==> old(self).priority_of(u)
                    <= old(self).priority_of(t)
                &&& forall|u: int| #[trigger] old(self).eligible(u) && old(self).priority_of(u)
                    == old(self).priority_of(t) ==> t <= u
                &&& final(self).pending_spec() == old(self).pending_spec().update(t, false)
                &&& final(self).run_stack() == old(self).run_stack().push(t)
                &&& final(self).frame_locks() == old(self).frame_locks().push(
                    old(self).ceiling_stack().len() as int,
                )
                &&& final(self).floor() == old(self).priority_of(t) as int
                &&& final(self).held_locks() == 0
            },
    {
        let floor = self.current_floor();
        let n = self.tasks.len();
        let mut found = false;
        let mut best: usize = 0;
        let mut best_priority: u8 = 0;
        let mut i: usize = 0;
        while i < n
            invariant
                i <= n,
                n == self.task_count(),
                self.wf(),
                floor as int == self.floor(),
                !found ==> forall|t: int| 0 <= t < i ==> !(#[trigger] self.eligible(t)),
                found ==> {
                    &&& best < i
                    &&& self.eligible(best as int)
                    &&& best_priority == self.priority_of(best as int)
                    &&& forall|t: int| 0 <= t < i && #[trigger] self.eligible(t)
                        ==> self.priority_of(t) <= best_priority
                    &&& forall|t: int| 0 <= t < i && #[trigger] self.eligible(t)
                        && self.priority_of(t) == best_priority ==> best <= t
                },
            decreases n - i,
        {
            if self.pending[i] {
                let p = self.tasks[i].priority;
                if p > floor {
                    if !found || p > best_priority {
                        found = true;
                        best = i;
                        best_priority = p;
                    }
                }
            }
            i = i + 1;
        }
        if found {
            self.pending.set(best, false);
            let locks_below = self.ceilings.len();
            self.stack.push(Frame { task: best, locks_below });
            proof {
                assert(self.run_stack() =~= old(self).run_stack().push(best as int));
                assert(self.frame_locks() =~= old(self).frame_locks().push(
                    old(self).ceiling_stack().len() as int,
                ));
                assert forall|k1: int, k2: int|
                    0 <= k1 < k2 < self.run_stack().len() implies (self.priority_of(
                    #[trigger] self.run_stack()[k1],
                ) as int) < (self.priority_of(#[trigger] self.run_stack()[k2]) as int) by {
                    if k2 == self.run_stack().len() - 1 {
                        if old(self).run_stack().len() > 0 {
                            let last = old(self).run_stack().len() - 1;
                            if k1 < last {
                                assert((old(self).priority_of(old(self).run_stack()[k1]) as int)
                                    < (old(self).priority_of(old(self).run_stack()[last]) as int));
                            }
                            assert((old(self).priority_of(old(self).run_stack()[last]) as int)
                                <= old(self).floor());
                        }
                    }
                }
            }
            Some(best)
        } else {
            None
        }
    }

    /// The task on top of the run stack completes and hands the CPU
    /// back to the work it preempted (or to the idle context).  It must
    /// have released every ceiling lock it took.
    pub fn finish(&mut self)
        requires
            old(self).wf(),
            old(self).run_stack().len() > 0,
            old(self).held_locks() == 0,
        ensures
            final(self).wf(),
            final(self).tasks_spec() == old(self).tasks_spec(),
            final(self).pending_spec() == old(self).pending_spec(),
            final(self).ceiling_stack() == old(self).ceiling_stack(),
            final(self).run_stack() == old(self).run_stack().drop_last(),
            final(self).frame_locks() == old(self).frame_locks().drop_last(),
    {
        let _ = self.stack.pop();
        proof {
            assert(self.run_stack() =~= old(self).run_stack().drop_last());
            assert(self.frame_locks() =~= old(self).frame_locks().drop_last());
        }
    }

    /// The running task takes a resource whose registered ceiling is
    /// `ceiling`: the floor rises to at least that ceiling for the span
    /// of the lock, so no task that can access the resource (priority at
    /// most the ceiling) is dispatched meanwhile.  The ceiling of a
    /// resource is never below the priority of any accessor — the
    /// running task included, which is what the precondition records.
    pub fn lock(&mut self, ceiling: u8)
        requires
            old(self).wf(),
            old(self).run_stack().len() > 0,
            ceiling as int >= old(self).base_floor(),
        ensures
            final(self).wf(),
            final(self).tasks_spec() == old(self).tasks_spec(),
            final(self).pending_spec() == old(self).pending_spec(),
            final(self).run_stack() == old(self).run_stack(),
            final(self).frame_locks() == old(self).frame_locks(),
            final(self).ceiling_stack().len() == old(self).ceiling_stack().len() + 1,
            final(self).ceiling_stack().drop_last() == old(self).ceiling_stack(),
            final(self).ceiling_stack().last() as int == (if ceiling as int > old(self).floor() {
                ceiling as int
            } else {
                old(self).floor()
            }),
            final(self).floor() == final(self).ceiling_stack().last() as int,
            final(self).floor() >= ceiling as int,
            final(self).held_locks() == old(self).held_locks() + 1,
    {
        let floor = self.current_floor();
        let raised = if ceiling > floor {
            ceiling
        } else {
            floor
        };
        self.ceilings.push(raised);
        proof {
            assert(self.run_stack() =~= old(self).run_stack());
            assert(self.frame_locks() =~= old(self).frame_locks());
            assert(self.ceiling_stack().drop_last() =~= old(self).ceiling_stack());
        }
    }

    /// The running task releases its most recent ceiling lock; the
    /// floor falls back to what the remaining locks and the run stack
    /// dictate, and whatever higher-priority work is pending can now be
    /// dispatched.
    pub fn unlock(&mut self)
        requires
            old(self).wf(),
            old(self).run_stack().len() > 0,
            old(self).held_locks() > 0,
        ensures
            final(self).wf(),
            final(self).tasks_spec() == old(self).tasks_spec(),
            final(self).pending_spec() == old(self).pending_spec(),
            final(self).run_stack() == old(self).run_stack(),
            final(self).frame_locks() == old(self).frame_locks(),
            final(self).ceiling_stack() == old(self).ceiling_stack().drop_last(),
            final(self).held_locks() == old(self).held_locks() - 1,
    {
        let _ = self.ceilings.pop();
        proof {
            assert(self.run_stack() =~= old(self).run_stack());
            assert(self.frame_locks() =~= old(self).frame_locks());
            assert(self.ceiling_stack() =~= old(self).ceiling_stack().drop_last());
        }
    }
}

/// The highest static priority among the tasks that access a resource:
/// its priority ceiling.  Zero when no accessor is named.
pub fn ceiling_for(tasks: &Vec<TaskDesc>, accessors: &Vec<usize>) -> (r: u8)
    requires
        forall|k: int| 0 <= k < accessors@.len() ==> (#[trigger] accessors@[k]) < tasks@.len(),
    ensures
        forall|k: int| 0 <= k < accessors@.len() ==> tasks@[#[trigger] accessors@[k] as int].priority
            <= r,
        accessors@.len() == 0 ==> r == 0,
        accessors@.len() > 0 ==> exists|k: int| 0 <= k < accessors@.len() && tasks@[(
        #[trigger] accessors@[k]) as int].priority == r,
{
    let mut r: u8 = 0;
    let mut i: usize = 0;
    while i < accessors.len()
        invariant
            i <= accessors@.len(),
            forall|k: int| 0 <= k < accessors@.len() ==> (#[trigger] accessors@[k])
                < tasks@.len(),
            forall|k: int| 0 <= k < i ==> tasks@[#[trigger] accessors@[k] as int].priority <= r,
            i == 0 ==> r == 0,
            i > 0 ==> exists|k: int| 0 <= k < i && tasks@[(#[trigger] accessors@[k]) as int].priority
                == r,
        decreases accessors@.len() - i,
    {
        let a = accessors[i];
        let p = tasks[a].priority;
        if p > r || i == 0 {
            r = p;
        }
        i = i + 1;
    }
    r
}

/// Priority-ceiling exclusion: while the floor stands at or above a
/// resource's ceiling — as it does for the whole span of a lock on that
/// ceiling — no task whose priority is at or below the ceiling is
/// eligible for dispatch.  Every task that accesses the resource has
/// priority at most its ceiling, so none of them can run, and the task
/// holding the lock keeps exclusive access.
pub proof fn lemma_ceiling_blocks(s: Scheduler, ceiling: int, t: int)
    requires
        s.wf(),
        s.floor() >= ceiling,
        0 <= t < s.task_count(),
        s.priority_of(t) as int <= ceiling,
    ensures
        !s.eligible(t),
{
}

/// Single-owner resources need no lock: while a task runs, no task of
/// equal or lower priority can be dispatched — in particular no second
/// activation of the running task itself.  A resource touched by one
/// task only is therefore exclusive to it by scheduling alone; this
/// lemma is what makes that single-owner policy an invariant rather
/// than an accident.  Adding a second, lower-priority accessor without
/// a ceiling lock is what would break it.
pub proof fn lemma_single_owner_exclusive(s: Scheduler, t: int)
    requires
        s.wf(),
        s.run_stack().len() > 0,
        s.run_stack().last() == t,
        0 <= t < s.task_count(),
    ensures
        !s.eligible(t),
        forall|u: int| 0 <= u < s.task_count() && s.priority_of(u) <= s.priority_of(t)
            ==> !(#[trigger] s.eligible(u)),
{
}

/// Release makes way: as soon as the floor falls below the priority of
/// a pending task, that task is eligible, and `dispatch` — which picks
/// a highest-priority eligible task — cannot return `None`.
pub proof fn lemma_release_unblocks(s: Scheduler, t: int)
    requires
        s.wf(),
        0 <= t < s.task_count(),
        s.is_pending(t),
        s.priority_of(t) as int > s.floor(),
    ensures
        s.eligible(t),
        exists|u: int| s.eligible(u),
{
    assert(s.eligible(t));
}

} // verus!
