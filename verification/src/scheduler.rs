//! Scheduling policies. `FppScheduler` is a fixed-priority preemptive policy:
//! one bounded FIFO ready queue per priority level, the most urgent
//! (numerically smallest) non-empty level is served first.
use vstd::prelude::*;
use crate::task_priority::TaskPriority;
use crate::types::{KernelError, TaskId};

verus! {

/// Number of distinct priority levels (`TaskPriority::MIN..=TaskPriority::MAX`).
pub const NUM_PRIORITY_LEVELS: usize = 32;

/// Capacity of the ready queue of one priority level.
pub const READY_QUEUE_CAPACITY: usize = 8;

/// The ready queues of a scheduler, most urgent level first.
pub type ReadyQueues = Seq<Seq<TaskId>>;

/// Index of the most urgent non-empty level, or `qs.len()` when every level is empty.
pub open spec fn first_ready(qs: ReadyQueues) -> int
    decreases qs.len(),
{
    if qs.len() == 0 {
        0
    } else if qs[0].len() > 0 {
        0
    } else {
        1 + first_ready(qs.drop_first())
    }
}

/// The task a scheduler in state `qs` hands out next.
pub open spec fn selected(qs: ReadyQueues) -> Option<TaskId> {
    let p = first_ready(qs);
    if p < qs.len() {
        Some(qs[p][0])
    } else {
        None
    }
}

/// The queues after the next task has been handed out.
pub open spec fn after_select(qs: ReadyQueues) -> ReadyQueues {
    let p = first_ready(qs);
    if p < qs.len() {
        qs.update(p, qs[p].drop_first())
    } else {
        qs
    }
}

/// The queues after `id` joined the tail of level `level`.
pub open spec fn after_enqueue(qs: ReadyQueues, id: TaskId, level: int) -> ReadyQueues {
    qs.update(level, qs[level].push(id))
}

/// Shape every scheduler state has: one queue per level, none over capacity.
pub open spec fn valid_queues(qs: ReadyQueues) -> bool {
    &&& qs.len() == NUM_PRIORITY_LEVELS
    &&& forall|p: int| 0 <= p < qs.len() ==> #[trigger] qs[p].len() <= READY_QUEUE_CAPACITY
}

/// The preemption rule: anything preempts an idle processor, otherwise only a
/// strictly more urgent candidate does.
pub open spec fn preempts(current: Option<(TaskId, TaskPriority)>, candidate: (TaskId, TaskPriority)) -> bool {
    match current {
        None => true,
        Some(c) => candidate.1.level() < c.1.level(),
    }
}

/// `first_ready` names the most urgent non-empty level, or the length when all are empty.
pub proof fn lemma_first_ready(qs: ReadyQueues)
    ensures
        0 <= first_ready(qs) <= qs.len(),
        first_ready(qs) < qs.len() ==> qs[first_ready(qs)].len() > 0,
        forall|q: int| 0 <= q < first_ready(qs) ==> #[trigger] qs[q].len() == 0,
    decreases qs.len(),
{
    if qs.len() > 0 && qs[0].len() == 0 {
        lemma_first_ready(qs.drop_first());
        assert forall|q: int| 0 <= q < first_ready(qs) implies #[trigger] qs[q].len() == 0 by {
            if q > 0 {
                assert(qs[q] == qs.drop_first()[q - 1]);
            }
        }
    }
}

/// A level that is non-empty with every more urgent level empty is the one `first_ready` names.
pub proof fn lemma_first_ready_is(qs: ReadyQueues, p: int)
    requires
        0 <= p <= qs.len(),
        p < qs.len() ==> qs[p].len() > 0,
        forall|q: int| 0 <= q < p ==> #[trigger] qs[q].len() == 0,
    ensures
        first_ready(qs) == p,
    decreases qs.len(),
{
    if qs.len() > 0 && p > 0 {
        assert(qs[0].len() == 0);
        assert forall|q: int| 0 <= q < p - 1 implies #[trigger] qs.drop_first()[q].len() == 0 by {
            assert(qs.drop_first()[q] == qs[q + 1]);
        }
        lemma_first_ready_is(qs.drop_first(), p - 1);
    }
}

/// Tasks leave the ready queues in level order, and within a level in arrival
/// order: the next task handed out is the first of the queues laid end to end,
/// most urgent level first, and handing it out removes exactly that task.
pub proof fn lemma_select_takes_front_of_all_queues(qs: ReadyQueues)
    ensures
        selected(qs) is None <==> qs.flatten().len() == 0,
        qs.flatten().len() > 0 ==> selected(qs) == Some(qs.flatten()[0]),
        qs.flatten().len() > 0 ==> after_select(qs).flatten() == qs.flatten().drop_first(),
        qs.flatten().len() == 0 ==> after_select(qs) == qs,
    decreases qs.len(),
{
    lemma_first_ready(qs);
    if qs.len() == 0 {
        assert(qs.flatten() =~= Seq::<TaskId>::empty());
    } else if qs[0].len() > 0 {
        let rest = qs.drop_first().flatten();
        assert(qs.flatten() == qs[0] + rest);
        let upd = qs.update(0, qs[0].drop_first());
        assert(upd.drop_first() =~= qs.drop_first());
        assert(upd.flatten() == qs[0].drop_first() + rest);
        assert((qs[0] + rest).drop_first() =~= qs[0].drop_first() + rest);
        assert((qs[0] + rest)[0] == qs[0][0]);
    } else {
        let tail = qs.drop_first();
        lemma_select_takes_front_of_all_queues(tail);
        lemma_first_ready(tail);
        assert(qs.flatten() =~= tail.flatten());
        if first_ready(tail) < tail.len() {
            let p = first_ready(tail);
            assert(tail[p] == qs[p + 1]);
            let upd = qs.update(p + 1, qs[p + 1].drop_first());
            assert(upd.drop_first() =~= after_select(tail));
            assert(upd[0] == qs[0]);
            assert(upd.flatten() =~= upd.drop_first().flatten());
        } else {
            assert(after_select(qs) == qs);
        }
    }
}

/// A task that becomes runnable never overtakes a waiting task of its own or
/// a more urgent level; it is served next exactly when every queue at its own
/// level and above is empty.
pub proof fn lemma_enqueue_never_overtakes(qs: ReadyQueues, id: TaskId, level: int)
    requires
        0 <= level < qs.len(),
    ensures
        first_ready(qs) <= level ==> selected(after_enqueue(qs, id, level)) == selected(qs),
        first_ready(qs) > level ==> selected(after_enqueue(qs, id, level)) == Some(id),
{
    let nq = after_enqueue(qs, id, level);
    lemma_first_ready(qs);
    if first_ready(qs) <= level {
        let p = first_ready(qs);
        assert forall|q: int| 0 <= q < p implies #[trigger] nq[q].len() == 0 by {
            assert(nq[q] == qs[q]);
        }
        lemma_first_ready_is(nq, p);
        if p == level {
            assert(nq[p][0] == qs[p][0]);
        }
    } else {
        assert forall|q: int| 0 <= q < level implies #[trigger] nq[q].len() == 0 by {
            assert(nq[q] == qs[q]);
        }
        assert(qs[level].len() == 0);
        lemma_first_ready_is(nq, level);
        assert(nq[level] =~= seq![id]);
    }
}

/// A scheduling policy. The kernel hands it the tasks that may run and asks it
/// which one runs next. The policy's ready structures are modelled by
/// `State`; each operation's outcome and effect is named by a spec function
/// of that state, so that callers can chain operations.
pub trait SchedulerPolicy {
    /// Model of the policy's ready structures.
    type State;

    /// The current model of the ready structures.
    spec fn state(&self) -> Self::State;

    /// Whether `candidate` takes the processor from `current`.
    spec fn preempts_spec(&self, current: Option<(TaskId, TaskPriority)>, candidate: (TaskId, TaskPriority)) -> bool;

    /// Whether recording a newly spawned task succeeds in state `s`.
    spec fn register_outcome(s: Self::State, task_id: TaskId, priority: TaskPriority) -> Result<(), KernelError>;

    /// The state after a newly spawned task was recorded.
    spec fn state_after_register(s: Self::State, task_id: TaskId, priority: TaskPriority) -> Self::State;

    /// Whether marking a task runnable succeeds in state `s`.
    spec fn enqueue_outcome(s: Self::State, task_id: TaskId, priority: TaskPriority) -> Result<(), KernelError>;

    /// The state after a task was marked runnable.
    spec fn state_after_enqueue(s: Self::State, task_id: TaskId, priority: TaskPriority) -> Self::State;

    /// The task handed out next in state `s`.
    spec fn next_in(s: Self::State) -> Option<TaskId>;

    /// The state after the next task was handed out.
    spec fn state_after_select(s: Self::State) -> Self::State;

    /// Records a newly spawned task as runnable; a refusal leaves the state as it was.
    fn register_task(&mut self, task_id: TaskId, priority: TaskPriority) -> (r: Result<(), KernelError>)
        ensures
            r == Self::register_outcome(old(self).state(), task_id, priority),
            r is Ok ==> final(self).state() == Self::state_after_register(old(self).state(), task_id, priority),
            r is Err ==> final(self).state() == old(self).state(),
    ;

    /// Marks a task runnable and places it in the policy's ready structures;
    /// a refusal leaves the state as it was.
    fn enqueue_runnable(&mut self, task_id: TaskId, priority: TaskPriority) -> (r: Result<(), KernelError>)
        ensures
            r == Self::enqueue_outcome(old(self).state(), task_id, priority),
            r is Ok ==> final(self).state() == Self::state_after_enqueue(old(self).state(), task_id, priority),
            r is Err ==> final(self).state() == old(self).state(),
    ;

    /// Takes the next runnable task out of the ready structures.
    fn select_next_runnable(&mut self) -> (r: Option<TaskId>)
        ensures
            r == Self::next_in(old(self).state()),
            final(self).state() == Self::state_after_select(old(self).state()),
    ;

    /// Whether `candidate` should take the processor from `current`.
    fn should_preempt_current(&self, current: Option<(TaskId, TaskPriority)>, candidate: (TaskId, TaskPriority)) -> (r: bool)
        ensures
            r == self.preempts_spec(current, candidate),
    ;
}

/// Fixed-priority preemptive scheduler: per level a ring buffer of
/// `READY_QUEUE_CAPACITY` task ids.
pub struct FppScheduler {
    slots: Vec<TaskId>,
    heads: Vec<usize>,
    lens: Vec<usize>,
}

impl FppScheduler {
    #[verifier::type_invariant]
    spec fn well_formed(self) -> bool {
        &&& self.slots.len() == NUM_PRIORITY_LEVELS * READY_QUEUE_CAPACITY
        &&& self.heads.len() == NUM_PRIORITY_LEVELS
        &&& self.lens.len() == NUM_PRIORITY_LEVELS
    }

    /// Occupancy of level `p` (counters are kept within the capacity by every operation).
    spec fn len_at(self, p: int) -> int {
        if self.lens[p] <= READY_QUEUE_CAPACITY {
            self.lens[p] as int
        } else {
            READY_QUEUE_CAPACITY as int
        }
    }

    /// Ring position of the front of level `p`.
    spec fn head_at(self, p: int) -> int {
        self.heads[p] as int % (READY_QUEUE_CAPACITY as int)
    }

    spec fn slot_of(p: int, i: int, head: int) -> int {
        p * READY_QUEUE_CAPACITY + (head + i) % (READY_QUEUE_CAPACITY as int)
    }

    spec fn queue_at(self, p: int) -> Seq<TaskId> {
        Seq::new(self.len_at(p) as nat, |i: int| self.slots[Self::slot_of(p, i, self.head_at(p))])
    }

    /// The ready queues, most urgent level first, each in arrival order.
    pub closed spec fn queues(self) -> ReadyQueues {
        Seq::new(NUM_PRIORITY_LEVELS as nat, |p: int| self.queue_at(p))
    }

    /// Creates a scheduler with every ready queue empty.
    pub fn new() -> (r: Self)
        ensures
            r.queues() == Seq::new(NUM_PRIORITY_LEVELS as nat, |p: int| Seq::<TaskId>::empty()),
            valid_queues(r.queues()),
    {
        let mut slots: Vec<TaskId> = Vec::new();
        let mut i: usize = 0;
        while i < NUM_PRIORITY_LEVELS * READY_QUEUE_CAPACITY
            invariant
                i <= NUM_PRIORITY_LEVELS * READY_QUEUE_CAPACITY,
                slots.len() == i,
            decreases NUM_PRIORITY_LEVELS * READY_QUEUE_CAPACITY - i,
        {
            slots.push(TaskId(0));
            i = i + 1;
        }
        let mut heads: Vec<usize> = Vec::new();
        let mut lens: Vec<usize> = Vec::new();
        let mut p: usize = 0;
        while p < NUM_PRIORITY_LEVELS
            invariant
                p <= NUM_PRIORITY_LEVELS,
                heads.len() == p,
                lens.len() == p,
                forall|q: int| 0 <= q < p ==> #[trigger] heads[q] == 0,
                forall|q: int| 0 <= q < p ==> #[trigger] lens[q] == 0,
            decreases NUM_PRIORITY_LEVELS - p,
        {
            heads.push(0);
            lens.push(0);
            p = p + 1;
        }
        let r = FppScheduler { slots, heads, lens };
        assert forall|p: int| 0 <= p < NUM_PRIORITY_LEVELS implies #[trigger] r.queue_at(p) =~= Seq::<TaskId>::empty() by {
            assert(r.lens[p] == 0);
        }
        assert(r.queues() =~= Seq::new(NUM_PRIORITY_LEVELS as nat, |p: int| Seq::<TaskId>::empty()));
        r
    }

    /// Appends `task_id` to the tail of level `level` when that queue has room.
    fn push_ready(&mut self, task_id: TaskId, level: usize) -> (r: Result<(), KernelError>)
        requires
            level < NUM_PRIORITY_LEVELS,
        ensures
            old(self).queues()[level as int].len() < READY_QUEUE_CAPACITY ==> {
                &&& r == Ok::<(), KernelError>(())
                &&& final(self).queues() == after_enqueue(old(self).queues(), task_id, level as int)
            },
            old(self).queues()[level as int].len() >= READY_QUEUE_CAPACITY ==> {
                &&& r == Err::<(), KernelError>(KernelError::ReadyQueueFull)
                &&& final(self).queues() == old(self).queues()
            },
            valid_queues(final(self).queues()),
    {
        proof { use_type_invariant(&*self); }
        let len = self.lens[level];
        assert(old(self).queues()[level as int].len() == old(self).len_at(level as int));
        if len >= READY_QUEUE_CAPACITY {
            proof { self.lemma_queues_valid(); }
            return Err(KernelError::ReadyQueueFull);
        }
        let head = self.heads[level] % READY_QUEUE_CAPACITY;
        let slot = level * READY_QUEUE_CAPACITY + (head + len) % READY_QUEUE_CAPACITY;
        let ghost old_q = old(self).queues();
        self.slots[slot] = task_id;
        self.lens[level] = len + 1;
        proof {
            let new_q = self.queues();
            let want = after_enqueue(old_q, task_id, level as int);
            assert forall|p: int| 0 <= p < NUM_PRIORITY_LEVELS implies #[trigger] new_q[p] =~= want[p] by {
                if p == level {
                    assert forall|i: int| 0 <= i < len implies
                        self.slots[Self::slot_of(p, i, head as int)] == old(self).slots[Self::slot_of(p, i, head as int)] by {
                        assert((head + i) % 8 != (head + len) % 8);
                    }
                } else {
                    assert forall|i: int| 0 <= i < self.len_at(p) implies
                        self.slots[Self::slot_of(p, i, self.head_at(p))] == old(self).slots[Self::slot_of(p, i, self.head_at(p))] by {
                        assert(0 <= (self.head_at(p) + i) % 8 < 8);
                    }
                }
            }
            assert(new_q =~= want);
        }
        proof { self.lemma_queues_valid(); }
        Ok(())
    }

    /// Removes and returns the front of level `level`, which must be non-empty.
    fn pop_front(&mut self, level: usize) -> (r: TaskId)
        requires
            level < NUM_PRIORITY_LEVELS,
            old(self).queues()[level as int].len() > 0,
        ensures
            r == old(self).queues()[level as int][0],
            final(self).queues() == old(self).queues().update(level as int, old(self).queues()[level as int].drop_first()),
    {
        proof { use_type_invariant(&*self); }
        let len = self.lens[level];
        let head = self.heads[level] % READY_QUEUE_CAPACITY;
        let len = if len > READY_QUEUE_CAPACITY { READY_QUEUE_CAPACITY } else { len };
        let r = self.slots[level * READY_QUEUE_CAPACITY + head];
        assert(r == old(self).queues()[level as int][0]);
        self.heads[level] = (head + 1) % READY_QUEUE_CAPACITY;
        self.lens[level] = len - 1;
        proof {
            let new_q = self.queues();
            let want = old(self).queues().update(level as int, old(self).queues()[level as int].drop_first());
            assert forall|p: int| 0 <= p < NUM_PRIORITY_LEVELS implies #[trigger] new_q[p] =~= want[p] by {
                if p == level {
                    assert forall|i: int| 0 <= i < len - 1 implies
                        Self::slot_of(p, i, self.head_at(p)) == Self::slot_of(p, i + 1, head as int) by {
                        assert(((head + 1) % 8 + i) % 8 == (head + i + 1) % 8);
                    }
                }
            }
            assert(new_q =~= want);
        }
        r
    }

    /// Whether level `level` has no ready task.
    fn level_is_empty(&self, level: usize) -> (r: bool)
        requires
            level < NUM_PRIORITY_LEVELS,
        ensures
            r == (self.queues()[level as int].len() == 0),
    {
        proof { use_type_invariant(self); }
        self.lens[level] == 0
    }

    /// Every scheduler holds one queue per level, none over capacity.
    pub proof fn lemma_queues_valid(self)
        ensures
            valid_queues(self.queues()),
    {
    }
}

impl SchedulerPolicy for FppScheduler {
    type State = ReadyQueues;

    open spec fn state(&self) -> ReadyQueues {
        self.queues()
    }

    open spec fn preempts_spec(&self, current: Option<(TaskId, TaskPriority)>, candidate: (TaskId, TaskPriority)) -> bool {
        preempts(current, candidate)
    }

    open spec fn register_outcome(s: ReadyQueues, task_id: TaskId, priority: TaskPriority) -> Result<(), KernelError> {
        Self::enqueue_outcome(s, task_id, priority)
    }

    open spec fn state_after_register(s: ReadyQueues, task_id: TaskId, priority: TaskPriority) -> ReadyQueues {
        after_enqueue(s, task_id, priority.level() as int)
    }

    open spec fn enqueue_outcome(s: ReadyQueues, task_id: TaskId, priority: TaskPriority) -> Result<(), KernelError> {
        if s[priority.level() as int].len() < READY_QUEUE_CAPACITY {
            Ok(())
        } else {
            Err(KernelError::ReadyQueueFull)
        }
    }

    open spec fn state_after_enqueue(s: ReadyQueues, task_id: TaskId, priority: TaskPriority) -> ReadyQueues {
        after_enqueue(s, task_id, priority.level() as int)
    }

    open spec fn next_in(s: ReadyQueues) -> Option<TaskId> {
        selected(s)
    }

    open spec fn state_after_select(s: ReadyQueues) -> ReadyQueues {
        after_select(s)
    }

    /// Spawned tasks join the ready queue of their priority, like any runnable task.
    fn register_task(&mut self, task_id: TaskId, priority: TaskPriority) -> (r: Result<(), KernelError>)
        ensures
            old(self).queues()[priority.level() as int].len() < READY_QUEUE_CAPACITY ==> {
                &&& r == Ok::<(), KernelError>(())
                &&& final(self).queues() == after_enqueue(old(self).queues(), task_id, priority.level() as int)
            },
            old(self).queues()[priority.level() as int].len() >= READY_QUEUE_CAPACITY ==> {
                &&& r == Err::<(), KernelError>(KernelError::ReadyQueueFull)
                &&& final(self).queues() == old(self).queues()
            },
            priority.level() <= TaskPriority::MAX,
            valid_queues(final(self).queues()),
    {
        self.enqueue_runnable(task_id, priority)
    }

    /// Appends the task to the tail of its priority's queue; a full queue refuses it.
    fn enqueue_runnable(&mut self, task_id: TaskId, priority: TaskPriority) -> (r: Result<(), KernelError>)
        ensures
            old(self).queues()[priority.level() as int].len() < READY_QUEUE_CAPACITY ==> {
                &&& r == Ok::<(), KernelError>(())
                &&& final(self).queues() == after_enqueue(old(self).queues(), task_id, priority.level() as int)
            },
            old(self).queues()[priority.level() as int].len() >= READY_QUEUE_CAPACITY ==> {
                &&& r == Err::<(), KernelError>(KernelError::ReadyQueueFull)
                &&& final(self).queues() == old(self).queues()
            },
            priority.level() <= TaskPriority::MAX,
            valid_queues(final(self).queues()),
    {
        let level = priority.as_u8() as usize;
        self.push_ready(task_id, level)
    }

    /// Hands out the front of the most urgent non-empty queue.
    fn select_next_runnable(&mut self) -> (r: Option<TaskId>)
        ensures
            r == selected(old(self).queues()),
            final(self).queues() == after_select(old(self).queues()),
            valid_queues(final(self).queues()),
    {
        let mut p: usize = 0;
        while p < NUM_PRIORITY_LEVELS
            invariant
                p <= NUM_PRIORITY_LEVELS,
                self.queues() == old(self).queues(),
                forall|q: int| 0 <= q < p ==> #[trigger] self.queues()[q].len() == 0,
            decreases NUM_PRIORITY_LEVELS - p,
        {
            if !self.level_is_empty(p) {
                proof { lemma_first_ready_is(self.queues(), p as int); }
                let r = self.pop_front(p);
                proof { self.lemma_queues_valid(); }
                return Some(r);
            }
            p = p + 1;
        }
        proof {
            lemma_first_ready_is(self.queues(), NUM_PRIORITY_LEVELS as int);
            self.lemma_queues_valid();
        }
        None
    }

    /// Anything preempts an idle processor; otherwise only a strictly more urgent candidate.
    fn should_preempt_current(&self, current: Option<(TaskId, TaskPriority)>, candidate: (TaskId, TaskPriority)) -> (r: bool)
        ensures
            r == preempts(current, candidate),
    {
        match current {
            None => true,
            Some((_, current_priority)) => candidate.1.as_u8() < current_priority.as_u8(),
        }
    }
}

} // verus!
