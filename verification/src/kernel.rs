//! The hardware-blind kernel: task spawning with bump allocation of stacks
//! from the board's pool, tick handling and rescheduling. Everything that
//! touches hardware goes through the `hal` traits.
use vstd::prelude::*;
use crate::devices::{DeviceCall, Devices};
use crate::hal::{ContextSwitch, CriticalSection, StackGuard, SystemTimer};
use crate::scheduler::{
    after_enqueue, after_select, first_ready, lemma_enqueue_never_overtakes, selected, FppScheduler, SchedulerPolicy,
};
use crate::stack_resources::KernelStackResources;
use crate::task_priority::TaskPriority;
use crate::tcb::{CoreTcb, TaskControlBlock};
use crate::types::{
    ContextSwitchError, KernelError, StackBounds, StackGuardConfig, StackGuardContext,
    StackGuardError, StackGuardMode, StackGuardState, TaskId, TaskState, TickAction,
};

verus! {

/// Number of task slots (task ids `0..MAX_TASKS`).
pub const MAX_TASKS: usize = 32;

/// Smallest stack the kernel hands out; covers the initial task frame on every target.
pub const MIN_TASK_STACK_SIZE_BYTES: usize = 512;

/// Word written at the stack limit by canary guards.
pub const DEFAULT_STACK_CANARY_WORD: u32 = 0xDEADBEEF;

/// `n` rounded up to the next multiple of `align`.
pub open spec fn round_up(n: int, align: int) -> int {
    (n + align - 1) / align * align
}

/// Rounding up gives the least multiple of `align` that is at least `n`.
pub proof fn lemma_round_up(n: int, align: int)
    requires
        n >= 0,
        align > 0,
    ensures
        round_up(n, align) % align == 0,
        n <= round_up(n, align) < n + align,
{
    let q = (n + align - 1) / align;
    assert(q * align <= n + align - 1 && q * align > n - 1) by (nonlinear_arith)
        requires
            align > 0,
            q == (n + align - 1) / align,
            n >= 0,
    ;
    assert((q * align) % align == 0) by (nonlinear_arith)
        requires
            align > 0,
    ;
}

/// Rounds `n` up to the nearest multiple of `align`.
pub fn align_up(n: usize, align: usize) -> (r: usize)
    requires
        align > 0,
        n + align - 1 <= usize::MAX,
    ensures
        r == round_up(n as int, align as int),
        r % align == 0,
        n <= r < n + align,
{
    let m = n + (align - 1);
    let q = m / align;
    proof {
        let a = align as int;
        assert(q * a <= m && q * a > m - a) by (nonlinear_arith)
            requires
                a > 0,
                q == m as int / a,
        ;
        assert((q * a) % a == 0) by (nonlinear_arith)
            requires
                a > 0,
        ;
    }
    let r = q * align;
    r
}

/// The guard context the kernel seeds for a stack `stack_limit..stack_top`.
pub open spec fn default_guard_ctx(stack_top: usize, stack_limit: usize) -> StackGuardContext {
    StackGuardContext {
        stack_top,
        stack_limit,
        state: StackGuardState { low_mark: stack_limit },
        config: StackGuardConfig { mode: StackGuardMode::Canary, canary_word: DEFAULT_STACK_CANARY_WORD },
    }
}

/// Builds the default canary guard context, refusing an empty or inverted stack.
pub fn build_default_stack_guard_ctx(stack_top: usize, stack_limit: usize) -> (r: Result<StackGuardContext, KernelError>)
    ensures
        stack_top <= stack_limit ==> r == Err::<StackGuardContext, KernelError>(KernelError::InvalidConfig),
        stack_top > stack_limit ==> r == Ok::<StackGuardContext, KernelError>(default_guard_ctx(stack_top, stack_limit)),
{
    if stack_top <= stack_limit {
        return Err(KernelError::InvalidConfig);
    }
    Ok(StackGuardContext {
        stack_top,
        stack_limit,
        state: StackGuardState { low_mark: stack_limit },
        config: StackGuardConfig { mode: StackGuardMode::Canary, canary_word: DEFAULT_STACK_CANARY_WORD },
    })
}

/// Kernel error for a context-switch error: malformed stacks or entry points
/// are configuration errors, anything else is unsupported.
pub open spec fn ctx_switch_err(err: ContextSwitchError) -> KernelError {
    match err {
        ContextSwitchError::NullStackPointer => KernelError::InvalidConfig,
        ContextSwitchError::InvalidStackBounds => KernelError::InvalidConfig,
        ContextSwitchError::UnalignedStackTop => KernelError::InvalidConfig,
        ContextSwitchError::StackRegionTooSmall => KernelError::InvalidConfig,
        ContextSwitchError::InvalidEntryPoint => KernelError::InvalidConfig,
        _ => KernelError::Unsupported,
    }
}

/// Maps a context-switch error to a kernel error.
pub fn map_ctx_switch_err_to_kernel_err(err: ContextSwitchError) -> (r: KernelError)
    ensures
        r == ctx_switch_err(err),
{
    match err {
        ContextSwitchError::NullStackPointer => KernelError::InvalidConfig,
        ContextSwitchError::InvalidStackBounds => KernelError::InvalidConfig,
        ContextSwitchError::UnalignedStackTop => KernelError::InvalidConfig,
        ContextSwitchError::StackRegionTooSmall => KernelError::InvalidConfig,
        ContextSwitchError::InvalidEntryPoint => KernelError::InvalidConfig,
        _ => KernelError::Unsupported,
    }
}

/// Kernel error for a stack-guard error.
pub open spec fn stack_guard_err(err: StackGuardError) -> KernelError {
    match err {
        StackGuardError::InvalidStackBounds => KernelError::InvalidConfig,
        StackGuardError::GuardCorrupted => KernelError::StackGuard,
    }
}

/// Maps a stack-guard error to a kernel error.
pub fn map_stack_guard_err_to_kernel_err(err: StackGuardError) -> (r: KernelError)
    ensures
        r == stack_guard_err(err),
{
    match err {
        StackGuardError::InvalidStackBounds => KernelError::InvalidConfig,
        StackGuardError::GuardCorrupted => KernelError::StackGuard,
    }
}

/// Maps any system-timer error to `KernelError::TimerFault`.
pub fn map_timer_err_to_kernel_err<E>(err: E) -> (r: KernelError)
    ensures
        r == KernelError::TimerFault,
{
    KernelError::TimerFault
}

/// Whether two optional task ids name the same task (or both name none).
fn same_task(a: Option<TaskId>, b: Option<TaskId>) -> (r: bool)
    ensures
        r == (a == b),
{
    match (a, b) {
        (None, None) => true,
        (Some(x), Some(y)) => x.0 == y.0,
        _ => false,
    }
}

/// Two stacks share no address.
pub open spec fn disjoint(a: StackBounds, b: StackBounds) -> bool {
    a.top <= b.bottom || b.top <= a.bottom
}

/// `tcbs` with the state of slot `i` set to `st`.
pub open spec fn with_state<C>(tcbs: Seq<Option<TaskControlBlock<C>>>, i: int, st: TaskState) -> Seq<
    Option<TaskControlBlock<C>>,
> {
    tcbs.update(i, Some(TaskControlBlock { task_state: st, ..tcbs[i]->0 }))
}

/// The hardware-blind kernel.
pub struct Kernel<CtxSwitchType, CriticalSectionType, SchedulerType, StackGuardImpl, SystemTimerType> where
    CtxSwitchType: ContextSwitch,
    CriticalSectionType: CriticalSection + Copy,
    SchedulerType: SchedulerPolicy,
    StackGuardImpl: StackGuard + Copy,
    SystemTimerType: SystemTimer,
 {
    devices: Devices<CtxSwitchType, SystemTimerType>,
    crit_section: CriticalSectionType,
    scheduler: SchedulerType,
    curr_task: Option<TaskId>,
    task_count: usize,
    stack_cursor: usize,
    stack_resources: KernelStackResources<StackGuardImpl>,
    tcb_list: Vec<Option<TaskControlBlock<CtxSwitchType::TaskContext>>>,
}

impl<CtxSwitchType, CriticalSectionType, SchedulerType, StackGuardImpl, SystemTimerType> Kernel<
    CtxSwitchType,
    CriticalSectionType,
    SchedulerType,
    StackGuardImpl,
    SystemTimerType,
> where
    CtxSwitchType: ContextSwitch,
    CriticalSectionType: CriticalSection + Copy,
    SchedulerType: SchedulerPolicy,
    StackGuardImpl: StackGuard + Copy,
    SystemTimerType: SystemTimer,
 {
    /// The task that currently owns the processor.
    pub closed spec fn current_task(&self) -> Option<TaskId> {
        self.curr_task
    }

    /// Number of tasks spawned so far.
    pub closed spec fn task_count(&self) -> usize {
        self.task_count
    }

    /// Bytes of the stack pool handed out so far (including alignment padding).
    pub closed spec fn stack_cursor(&self) -> usize {
        self.stack_cursor
    }

    /// Lowest address of the stack pool.
    pub closed spec fn pool_base(&self) -> usize {
        self.stack_resources.pool_base
    }

    /// Length of the stack pool in bytes.
    pub closed spec fn pool_len(&self) -> usize {
        self.stack_resources.pool_len
    }

    /// The per-task stack guard slots.
    pub closed spec fn guard_slots(&self) -> Seq<Option<StackGuardContext>> {
        self.stack_resources.stack_guard_slots@
    }

    /// The control-block table, one slot per task id.
    pub closed spec fn tcbs(&self) -> Seq<Option<TaskControlBlock<CtxSwitchType::TaskContext>>> {
        self.tcb_list@
    }

    /// The control block of task slot `i`.
    pub open spec fn tcb(&self, i: int) -> Option<TaskControlBlock<CtxSwitchType::TaskContext>> {
        self.tcbs()[i]
    }

    /// Every call made on the context switch so far, oldest first.
    pub closed spec fn device_calls(&self) -> Seq<DeviceCall<CtxSwitchType::TaskContext>> {
        self.devices.calls()
    }

    /// Whether task `id` has a control block.
    pub open spec fn has_tcb(&self, id: TaskId) -> bool {
        id.0 < MAX_TASKS && self.tcb(id.0 as int) is Some
    }

    /// The policy's state once the current task (if any) has been requeued.
    pub open spec fn requeued_state(&self) -> SchedulerType::State {
        match self.current_task() {
            None => self.policy().state(),
            Some(c) => SchedulerType::state_after_enqueue(self.policy().state(), c, self.current_priority()),
        }
    }

    /// Whether requeueing the current task (if any) succeeds.
    pub open spec fn requeue_outcome(&self) -> Result<(), KernelError> {
        match self.current_task() {
            None => Ok(()),
            Some(c) => SchedulerType::enqueue_outcome(self.policy().state(), c, self.current_priority()),
        }
    }

    /// The task a reschedule selects once the current task is requeued.
    pub open spec fn resched_pick(&self) -> Option<TaskId> {
        SchedulerType::next_in(self.requeued_state())
    }

    /// Result of rescheduling when the stack guard passes: the requeue's
    /// refusal, or whether the current task changed, or `InvalidState` when
    /// the selected task has no control block.
    pub open spec fn resched_outcome(&self) -> Result<bool, KernelError> {
        match self.requeue_outcome() {
            Err(e) => Err(e),
            Ok(_) => match self.resched_pick() {
                None => Ok(false),
                Some(n) => if self.has_tcb(n) {
                    Ok(Some(n) != self.current_task())
                } else {
                    Err(KernelError::InvalidState)
                },
            },
        }
    }

    /// Whether rescheduling hands the processor to a selected task.
    pub open spec fn resched_takes_pick(&self) -> bool {
        &&& self.requeue_outcome() is Ok
        &&& self.resched_pick() matches Some(n) && self.has_tcb(n)
    }

    /// Control blocks after rescheduling: the current task (if any) is Ready,
    /// then the selected task (if it is taken) Running.
    pub open spec fn resched_tcbs(&self) -> Seq<Option<TaskControlBlock<CtxSwitchType::TaskContext>>> {
        let demoted = match self.current_task() {
            None => self.tcbs(),
            Some(c) => with_state(self.tcbs(), c.0 as int, TaskState::Ready),
        };
        if self.resched_takes_pick() {
            with_state(demoted, (self.resched_pick()->0).0 as int, TaskState::Running)
        } else {
            demoted
        }
    }

    /// The current task after rescheduling.
    pub open spec fn resched_current(&self) -> Option<TaskId> {
        if self.resched_takes_pick() {
            self.resched_pick()
        } else {
            self.current_task()
        }
    }

    /// The policy's state after rescheduling.
    pub open spec fn resched_policy_state(&self) -> SchedulerType::State {
        if self.requeue_outcome() is Ok {
            SchedulerType::state_after_select(self.requeued_state())
        } else {
            self.policy().state()
        }
    }

    /// Whether rescheduling switches tasks and so hands the outgoing
    /// context of slot `i` to the context switch to save into.
    pub open spec fn resched_saves_slot(&self, i: int) -> bool {
        &&& self.resched_outcome() == Ok::<bool, KernelError>(true)
        &&& self.current_task() matches Some(c) && c.0 == i
    }

    /// The calls rescheduling makes on the context switch: on a switch, the
    /// outgoing task's context (or none) to save into, then the selected
    /// task's context to restore.
    pub open spec fn resched_calls(&self) -> Seq<DeviceCall<CtxSwitchType::TaskContext>> {
        if self.resched_outcome() == Ok::<bool, KernelError>(true) {
            seq![
                DeviceCall::SaveTo(match self.current_task() {
                    None => None,
                    Some(c) => Some(self.tcb(c.0 as int)->0.task_context),
                }),
                DeviceCall::Restore(self.tcb((self.resched_pick()->0).0 as int)->0.task_context),
            ]
        } else {
            Seq::empty()
        }
    }

    /// `after` is this kernel rescheduled with the stack guard passing, with
    /// `tail` the calls made on the context switch afterwards. The outgoing
    /// task's saved context is the context switch's to fill.
    pub open spec fn rescheduled(
        &self,
        after: &Self,
        head: Seq<DeviceCall<CtxSwitchType::TaskContext>>,
        tail: Seq<DeviceCall<CtxSwitchType::TaskContext>>,
    ) -> bool {
        &&& forall|i: int| 0 <= i < MAX_TASKS && !self.resched_saves_slot(i)
            ==> #[trigger] after.tcb(i) == self.resched_tcbs()[i]
        &&& forall|i: int| 0 <= i < MAX_TASKS && self.resched_saves_slot(i)
            ==> (#[trigger] after.tcb(i) matches Some(t) && t == (TaskControlBlock {
                task_context: t.task_context,
                ..self.resched_tcbs()[i]->0
            }))
        &&& after.current_task() == self.resched_current()
        &&& after.policy().state() == self.resched_policy_state()
        &&& after.device_calls() == self.device_calls() + head + self.resched_calls() + tail
        &&& after.context_switch() == self.context_switch()
        &&& after.stack_guard() == self.stack_guard()
    }

    /// The hand-over of a reschedule that switches tasks: the task that becomes
    /// current differs from the one that was; the context switch is told to
    /// save into the context of the task that was current (nothing when none
    /// was) and to restore the context of the task that becomes current; and
    /// no task's context but the outgoing one's can change.
    pub proof fn lemma_reschedule_hands_over(
        &self,
        after: &Self,
        head: Seq<DeviceCall<CtxSwitchType::TaskContext>>,
        tail: Seq<DeviceCall<CtxSwitchType::TaskContext>>,
    )
        requires
            self.wf(),
            self.rescheduled(after, head, tail),
            self.resched_outcome() == Ok::<bool, KernelError>(true),
        ensures
            after.current_task() is Some,
            after.current_task() != self.current_task(),
            self.has_tcb(after.current_task()->0),
            after.device_calls() == self.device_calls() + head + seq![
                DeviceCall::SaveTo(match self.current_task() {
                    None => None,
                    Some(c) => Some(self.tcb(c.0 as int)->0.task_context),
                }),
                DeviceCall::Restore(self.tcb((after.current_task()->0).0 as int)->0.task_context),
            ] + tail,
            forall|i: int| 0 <= i < MAX_TASKS && !(self.current_task() matches Some(c) && c.0 == i)
                ==> (#[trigger] after.tcb(i) is Some) == self.tcb(i) is Some && (self.tcb(i) is Some
                ==> after.tcb(i)->0.task_context == self.tcb(i)->0.task_context),
    {
        assert forall|i: int| 0 <= i < MAX_TASKS && !(self.current_task() matches Some(c) && c.0 == i)
            implies (#[trigger] after.tcb(i) is Some) == self.tcb(i) is Some && (self.tcb(i) is Some
            ==> after.tcb(i)->0.task_context == self.tcb(i)->0.task_context) by {
            assert(!self.resched_saves_slot(i));
        }
    }

    /// Task states after a reschedule that goes through: the task that is
    /// then current is Running; the task that was current, if it lost the
    /// processor, is Ready; every other task's control block is untouched; and
    /// the new current task, when it changed, is the policy's pick.
    pub proof fn lemma_reschedule_states(
        &self,
        after: &Self,
        head: Seq<DeviceCall<CtxSwitchType::TaskContext>>,
        tail: Seq<DeviceCall<CtxSwitchType::TaskContext>>,
    )
        requires
            self.wf(),
            self.rescheduled(after, head, tail),
            self.resched_outcome() is Ok,
        ensures
            after.current_task() != self.current_task() ==> (after.current_task() matches Some(n) && after.tcb(
                n.0 as int,
            ) matches Some(t) && t.task_state == TaskState::Running),
            self.current_task() is Some && after.current_task() != self.current_task() ==> (after.tcb(
                (self.current_task()->0).0 as int,
            ) matches Some(t) && t.task_state == TaskState::Ready),
            after.current_task() != self.current_task() ==> after.current_task() == SchedulerType::next_in(
                self.requeued_state(),
            ),
            forall|i: int| 0 <= i < MAX_TASKS && !(self.current_task() matches Some(c) && c.0 == i) && !(
            after.current_task() matches Some(n) && n.0 == i) ==> #[trigger] after.tcb(i) == self.tcb(i),
    {
        if let Some(c) = self.current_task() {
            assert(Self::tcb_ok(self.tcb_list@, self.stack_resources.pool_base, self.stack_cursor, c.0 as int));
        }
        assert forall|i: int| 0 <= i < MAX_TASKS && !(self.current_task() matches Some(c) && c.0 == i) && !(
            after.current_task() matches Some(n) && n.0 == i) implies #[trigger] after.tcb(i) == self.tcb(i) by {
            assert(!self.resched_saves_slot(i));
        }
    }

    /// `after` is this kernel after a reschedule stopped on a corrupted
    /// stack guard: nothing about the tasks changed.
    pub open spec fn guard_refused(&self, after: &Self, head: Seq<DeviceCall<CtxSwitchType::TaskContext>>) -> bool {
        &&& forall|i: int| 0 <= i < MAX_TASKS ==> #[trigger] after.tcb(i) == self.tcb(i)
        &&& after.current_task() == self.current_task()
        &&& after.policy() == self.policy()
        &&& after.device_calls() == self.device_calls() + head
        &&& after.context_switch() == self.context_switch()
        &&& after.stack_guard() == self.stack_guard()
    }

    /// Whether rescheduling consults the stack guard: the current task has a
    /// guard slot that holds a context.
    pub open spec fn guard_consulted(&self) -> bool {
        self.current_task() matches Some(c) && c.0 < self.guard_slots().len() && self.guard_slots()[c.0 as int] is Some
    }

    /// The current task's stack guard is checked whenever its slot holds a
    /// guard context, whatever the task's id and however many tasks exist.
    pub proof fn lemma_guard_checked_whenever_present(&self)
        ensures
            (self.current_task() matches Some(c) && c.0 < self.guard_slots().len() && self.guard_slots()[c.0 as int] is Some)
                ==> self.guard_consulted(),
            self.guard_consulted() ==> self.current_task() is Some,
    {
    }

    /// The context the current task's guard is checked with.
    pub open spec fn guard_ctx(&self) -> StackGuardContext {
        self.guard_slots()[(self.current_task()->0).0 as int]->0
    }

    /// The record of checking the current task's guard with verdict `v`.
    pub open spec fn guard_check_call(&self, v: Result<(), StackGuardError>) -> Seq<
        DeviceCall<CtxSwitchType::TaskContext>,
    > {
        seq![DeviceCall::GuardCheck(self.guard_ctx(), v)]
    }

    /// The verdict of the guard check recorded at position `at` of the call
    /// record.
    pub open spec fn verdict_at(&self, at: int) -> Result<(), StackGuardError> {
        match self.device_calls()[at] {
            DeviceCall::GuardCheck(_, v) => v,
            _ => Ok(()),
        }
    }

    /// The guard slots after the current task's guard was checked.
    pub open spec fn checked_guard_slots(&self) -> Seq<Option<StackGuardContext>> {
        if self.guard_consulted() {
            let i = (self.current_task()->0).0 as int;
            self.guard_slots().update(i, Some(self.stack_guard().checked_ctx_spec(self.guard_slots()[i]->0)))
        } else {
            self.guard_slots()
        }
    }

    /// The scheduling policy.
    pub closed spec fn policy(&self) -> SchedulerType {
        self.scheduler
    }

    /// The system timer.
    pub closed spec fn timer(&self) -> SystemTimerType {
        self.devices.timer()
    }

    /// Everything the kernel records about tasks is as in `other`: the
    /// current task, every control block, the guard slots and the policy.
    pub open spec fn same_tasks(&self, other: &Self) -> bool {
        &&& other.current_task() == self.current_task()
        &&& other.guard_slots() == self.guard_slots()
        &&& other.policy() == self.policy()
        &&& forall|i: int| 0 <= i < MAX_TASKS ==> #[trigger] other.tcb(i) == self.tcb(i)
    }

    /// The context switch implementation.
    pub closed spec fn context_switch(&self) -> CtxSwitchType {
        self.devices.context_switch()
    }

    /// The stack guard implementation.
    pub closed spec fn stack_guard(&self) -> StackGuardImpl {
        self.stack_resources.stack_guard
    }

    /// Address range of the stack a spawn of `stack_size` bytes would receive.
    pub open spec fn next_stack_bounds(&self, stack_size: usize) -> StackBounds {
        StackBounds {
            bottom: (self.pool_base() + self.next_stack(stack_size).0) as usize,
            top: (self.pool_base() + self.next_stack(stack_size).0 + self.next_stack(stack_size).1) as usize,
        }
    }

    /// The result of spawning: refused requests are configuration errors,
    /// then the context switch and the stack guard may refuse the new stack,
    /// and finally the policy must admit the task (or requeue the one it
    /// displaces).
    pub open spec fn spawn_outcome(
        &self,
        task_id: TaskId,
        priority: TaskPriority,
        stack_size: usize,
        entry_point: CtxSwitchType::TaskEntryPoint,
        entry_arg: CtxSwitchType::TaskEntryArg,
    ) -> Result<(), KernelError> {
        let b = self.next_stack_bounds(stack_size);
        if self.spawn_refused(task_id, stack_size) {
            Err(KernelError::InvalidConfig)
        } else {
            match self.context_switch().initialise_spec(b.top, b.bottom, entry_point, entry_arg) {
                Err(e) => Err(ctx_switch_err(e)),
                Ok(_) => match self.stack_guard().initialise_spec(default_guard_ctx(b.top, b.bottom)) {
                    Err(e) => Err(stack_guard_err(e)),
                    Ok(_) => self.spawn_admission(task_id, priority),
                },
            }
        }
    }

    /// Stack slice that a spawn of `stack_size` bytes would receive, as
    /// offsets into the pool: `(start, size)`.
    pub open spec fn next_stack(&self, stack_size: usize) -> (int, int) {
        let align = CtxSwitchType::STACK_ALIGNMENT_BYTES as int;
        (round_up(self.stack_cursor() as int, align), round_up(stack_size as int, align))
    }

    /// A spawn request the kernel refuses before touching any state.
    pub open spec fn spawn_refused(&self, task_id: TaskId, stack_size: usize) -> bool {
        let align = CtxSwitchType::STACK_ALIGNMENT_BYTES as int;
        let (start, size) = self.next_stack(stack_size);
        ||| task_id.0 >= self.guard_slots().len()
        ||| task_id.0 >= MAX_TASKS
        ||| align == 0
        ||| stack_size + align - 1 > usize::MAX
        ||| size < MIN_TASK_STACK_SIZE_BYTES
        ||| self.stack_cursor() + align - 1 > usize::MAX
        ||| start + size > self.pool_len()
    }

    /// Priority recorded for the current task.
    pub open spec fn current_priority(&self) -> TaskPriority {
        self.tcb((self.current_task()->0).0 as int)->0.task_priority
    }

    /// Whether a spawn of `task_id` at `priority` makes it the current task:
    /// always when nothing runs, otherwise as the policy decides against the
    /// current task and its priority.
    pub open spec fn spawn_preempts(&self, task_id: TaskId, priority: TaskPriority) -> bool {
        match self.current_task() {
            None => true,
            Some(c) => self.tcb(c.0 as int) is Some && self.policy().preempts_spec(
                Some((c, self.tcb(c.0 as int)->0.task_priority)),
                (task_id, priority),
            ),
        }
    }

    /// The policy's answer when a spawn commits: a preempting spawn requeues
    /// the task it displaces (under its recorded priority, which is the new
    /// one when the same id is spawned again), any other spawn registers
    /// the new task.
    pub open spec fn spawn_admission(&self, task_id: TaskId, priority: TaskPriority) -> Result<(), KernelError> {
        if self.spawn_preempts(task_id, priority) {
            match self.current_task() {
                None => Ok(()),
                Some(c) => SchedulerType::enqueue_outcome(
                    self.policy().state(),
                    c,
                    if c == task_id { priority } else { self.tcb(c.0 as int)->0.task_priority },
                ),
            }
        } else {
            SchedulerType::register_outcome(self.policy().state(), task_id, priority)
        }
    }

    /// The policy's state after a spawn that commits: the displaced task
    /// requeued, or the new task registered.
    pub open spec fn spawn_policy_state(&self, task_id: TaskId, priority: TaskPriority) -> SchedulerType::State {
        if self.spawn_preempts(task_id, priority) {
            match self.current_task() {
                None => self.policy().state(),
                Some(c) => SchedulerType::state_after_enqueue(
                    self.policy().state(),
                    c,
                    if c == task_id { priority } else { self.tcb(c.0 as int)->0.task_priority },
                ),
            }
        } else {
            SchedulerType::state_after_register(self.policy().state(), task_id, priority)
        }
    }


    /// What stays put when the kernel only reschedules: the stack layout, the
    /// task count and the identity, stack and priority of every control block.
    pub open spec fn same_layout(&self, other: &Self) -> bool {
        &&& other.task_count() == self.task_count()
        &&& other.stack_cursor() == self.stack_cursor()
        &&& other.pool_base() == self.pool_base()
        &&& other.pool_len() == self.pool_len()
        &&& other.guard_slots().len() == self.guard_slots().len()
        &&& forall|i: int| 0 <= i < MAX_TASKS ==> (#[trigger] other.tcb(i) is Some <==> self.tcb(i) is Some)
        &&& forall|i: int| 0 <= i < MAX_TASKS && #[trigger] self.tcb(i) is Some ==> {
            &&& other.tcb(i)->0.task_id == self.tcb(i)->0.task_id
            &&& other.tcb(i)->0.stack_bounds == self.tcb(i)->0.stack_bounds
            &&& other.tcb(i)->0.task_priority == self.tcb(i)->0.task_priority
        }
    }

    /// The kernel's invariant: every spawned task sits in the slot of its id
    /// with a stack of at least `MIN_TASK_STACK_SIZE_BYTES` inside the handed
    /// out part of the pool, stacks of distinct tasks are disjoint, and the
    /// current task (if any) has a control block.
    pub closed spec fn wf(&self) -> bool {
        Self::state_wf(self.tcb_list@, self.stack_resources.pool_base, self.stack_resources.pool_len,
            self.stack_cursor, self.task_count, self.curr_task)
    }

    spec fn state_wf(
        tcbs: Seq<Option<TaskControlBlock<CtxSwitchType::TaskContext>>>,
        base: usize,
        len: usize,
        cursor: usize,
        count: usize,
        curr: Option<TaskId>,
    ) -> bool {
        &&& tcbs.len() == MAX_TASKS
        &&& base + len <= usize::MAX
        &&& cursor <= len
        &&& count * MIN_TASK_STACK_SIZE_BYTES <= cursor
        &&& forall|i: int| 0 <= i < MAX_TASKS ==> #[trigger] Self::tcb_ok(tcbs, base, cursor, i)
        &&& forall|i: int, j: int| 0 <= i < MAX_TASKS && 0 <= j < MAX_TASKS && i != j
            && (#[trigger] tcbs[i]) is Some && (#[trigger] tcbs[j]) is Some
            ==> disjoint(tcbs[i]->0.stack_bounds, tcbs[j]->0.stack_bounds)
        &&& curr matches Some(c) ==> c.0 < MAX_TASKS && tcbs[c.0 as int] is Some
    }

    spec fn tcb_ok(tcbs: Seq<Option<TaskControlBlock<CtxSwitchType::TaskContext>>>, base: usize, cursor: usize, i: int) -> bool {
        tcbs[i] matches Some(t) ==> {
            &&& t.task_id.0 == i
            &&& t.task_priority.level() <= TaskPriority::MAX
            &&& base <= t.stack_bounds.bottom
            &&& t.stack_bounds.bottom + MIN_TASK_STACK_SIZE_BYTES <= t.stack_bounds.top
            &&& t.stack_bounds.top <= base + cursor
        }
    }

    /// The stack a spawn that is not refused receives starts at or after
    /// everything handed out so far, is aligned, holds at least the requested
    /// bytes (and the minimum), wastes less than one alignment unit, and ends
    /// inside the pool.
    pub proof fn lemma_next_stack_fits(&self, task_id: TaskId, stack_size: usize)
        requires
            !self.spawn_refused(task_id, stack_size),
        ensures
            ({
                let a = CtxSwitchType::STACK_ALIGNMENT_BYTES as int;
                let (start, size) = self.next_stack(stack_size);
                &&& self.stack_cursor() <= start
                &&& start % a == 0
                &&& size % a == 0
                &&& stack_size <= size < stack_size + a
                &&& MIN_TASK_STACK_SIZE_BYTES <= size
                &&& start + size <= self.pool_len()
            }),
    {
        let a = CtxSwitchType::STACK_ALIGNMENT_BYTES as int;
        lemma_round_up(self.stack_cursor() as int, a);
        lemma_round_up(stack_size as int, a);
    }

    /// The size rule of spawning: with a usable id and alignment and no
    /// overflow in the rounding, a request is refused exactly when its rounded
    /// stack is smaller than `MIN_TASK_STACK_SIZE_BYTES` or does not fit in
    /// the rest of the pool; a stack of exactly the minimum is accepted.
    pub proof fn lemma_spawn_size_rule(&self, task_id: TaskId, stack_size: usize)
        ensures
            ({
                let a = CtxSwitchType::STACK_ALIGNMENT_BYTES as int;
                let start = round_up(self.stack_cursor() as int, a);
                let size = round_up(stack_size as int, a);
                (task_id.0 < MAX_TASKS && task_id.0 < self.guard_slots().len() && a > 0 && stack_size + a - 1
                    <= usize::MAX && self.stack_cursor() + a - 1 <= usize::MAX) ==> (self.spawn_refused(
                    task_id,
                    stack_size,
                ) <==> (size < MIN_TASK_STACK_SIZE_BYTES || start + size > self.pool_len()))
            }),
    {
    }

    /// Every control block sits in the slot of its id, with its stack inside the pool.
    pub proof fn lemma_tcb_layout(&self, i: int)
        requires
            self.wf(),
            0 <= i < MAX_TASKS,
        ensures
            self.tcb(i) matches Some(t) ==> {
                &&& t.task_id.0 == i
                &&& self.pool_base() <= t.stack_bounds.bottom
                &&& t.stack_bounds.bottom + MIN_TASK_STACK_SIZE_BYTES <= t.stack_bounds.top
                &&& t.stack_bounds.top <= self.pool_base() + self.stack_cursor()
                &&& self.stack_cursor() <= self.pool_len()
            },
    {
        assert(Self::tcb_ok(self.tcb_list@, self.stack_resources.pool_base, self.stack_cursor, i));
    }

    /// Stacks of two distinct spawned tasks never share an address.
    pub proof fn lemma_stacks_disjoint(&self, i: int, j: int)
        requires
            self.wf(),
            0 <= i < MAX_TASKS,
            0 <= j < MAX_TASKS,
            i != j,
            self.tcb(i) is Some,
            self.tcb(j) is Some,
        ensures
            disjoint(self.tcb(i)->0.stack_bounds, self.tcb(j)->0.stack_bounds),
    {
        assert(self.tcb_list@[i] is Some && self.tcb_list@[j] is Some);
    }

    /// Every spawned task used at least `MIN_TASK_STACK_SIZE_BYTES` of the
    /// pool, so the task count is bounded by the pool size.
    pub proof fn lemma_task_count_bounded(&self)
        requires
            self.wf(),
        ensures
            self.task_count() * MIN_TASK_STACK_SIZE_BYTES <= self.stack_cursor() <= self.pool_len(),
    {
    }

    /// The current task, if any, has a control block.
    pub proof fn lemma_current_task_has_tcb(&self)
        requires
            self.wf(),
        ensures
            self.current_task() matches Some(c) ==> c.0 < MAX_TASKS && self.tcb(c.0 as int) is Some,
    {
    }

    /// Creates a kernel with no task spawned.
    pub fn new(
        ctx_switch: CtxSwitchType,
        crit_section: CriticalSectionType,
        scheduler: SchedulerType,
        stack_resources: KernelStackResources<StackGuardImpl>,
        system_timer: SystemTimerType,
    ) -> (r: Self)
        requires
            stack_resources.wf(),
        ensures
            r.wf(),
            r.current_task() is None,
            r.task_count() == 0,
            r.stack_cursor() == 0,
            r.pool_base() == stack_resources.pool_base,
            r.pool_len() == stack_resources.pool_len,
            r.guard_slots() == stack_resources.stack_guard_slots@,
            r.policy() == scheduler,
            r.timer() == system_timer,
            r.context_switch() == ctx_switch,
            r.stack_guard() == stack_resources.stack_guard,
            r.device_calls() == Seq::<DeviceCall<CtxSwitchType::TaskContext>>::empty(),
            forall|i: int| 0 <= i < MAX_TASKS ==> #[trigger] r.tcb(i) is None,
    {
        let mut tcb_list: Vec<Option<TaskControlBlock<CtxSwitchType::TaskContext>>> = Vec::new();
        let mut i: usize = 0;
        while i < MAX_TASKS
            invariant
                i <= MAX_TASKS,
                tcb_list@.len() == i,
                forall|j: int| 0 <= j < i ==> #[trigger] tcb_list@[j] is None,
            decreases MAX_TASKS - i,
        {
            tcb_list.push(None);
            i = i + 1;
        }
        let r = Kernel {
            devices: Devices::new(ctx_switch, system_timer),
            crit_section,
            scheduler,
            curr_task: None,
            task_count: 0,
            stack_cursor: 0,
            stack_resources,
            tcb_list,
        };
        assert forall|i: int| 0 <= i < MAX_TASKS implies #[trigger] Self::tcb_ok(r.tcb_list@, r.stack_resources.pool_base, r.stack_cursor, i) by {}
        r
    }

    /// Updates the state of task `task_id`; a task without a control block is
    /// an invalid state.
    fn set_task_state(&mut self, task_id: TaskId, state: TaskState) -> (r: Result<(), KernelError>)
        requires
            old(self).wf(),
        ensures
            final(self).wf(),
            (task_id.0 < MAX_TASKS && old(self).tcb(task_id.0 as int) is Some) ==> {
                &&& r == Ok::<(), KernelError>(())
                &&& final(self).tcb_list@ == old(self).tcb_list@.update(
                    task_id.0 as int,
                    Some(TaskControlBlock { task_state: state, ..old(self).tcb_list@[task_id.0 as int]->0 }),
                )
            },
            !(task_id.0 < MAX_TASKS && old(self).tcb(task_id.0 as int) is Some) ==> {
                &&& r == Err::<(), KernelError>(KernelError::InvalidState)
                &&& final(self).tcb_list@ == old(self).tcb_list@
            },
            final(self).curr_task == old(self).curr_task,
            final(self).task_count == old(self).task_count,
            final(self).stack_cursor == old(self).stack_cursor,
            final(self).stack_resources == old(self).stack_resources,
            final(self).scheduler == old(self).scheduler,
            final(self).devices == old(self).devices,
            old(self).same_layout(final(self)),
    {
        let idx = task_id.0 as usize;
        if idx >= self.tcb_list.len() {
            return Err(KernelError::InvalidState);
        }
        let ghost old_list = self.tcb_list@;
        match self.tcb_list[idx].as_mut() {
            None => {
                proof {
                    assert(self.tcb_list@ =~= old_list);
                    assert forall|i: int| 0 <= i < MAX_TASKS implies #[trigger] Self::tcb_ok(self.tcb_list@, self.stack_resources.pool_base, self.stack_cursor, i) by {
                        assert(Self::tcb_ok(old(self).tcb_list@, old(self).stack_resources.pool_base, old(self).stack_cursor, i));
                    }
                }
                Err(KernelError::InvalidState)
            },
            Some(tcb) => {
                tcb.set_state(state);
                proof {
                    assert(self.tcb_list@ =~= old_list.update(
                        idx as int,
                        Some(TaskControlBlock { task_state: state, ..old_list[idx as int]->0 }),
                    ));
                    assert forall|i: int| 0 <= i < MAX_TASKS implies #[trigger] Self::tcb_ok(self.tcb_list@, self.stack_resources.pool_base, self.stack_cursor, i) by {
                        assert(Self::tcb_ok(old(self).tcb_list@, old(self).stack_resources.pool_base, old(self).stack_cursor, i));
                    }
                    assert forall|i: int, j: int| 0 <= i < MAX_TASKS && 0 <= j < MAX_TASKS && i != j
                        && (#[trigger] self.tcb_list@[i]) is Some && (#[trigger] self.tcb_list@[j]) is Some
                        implies disjoint(self.tcb_list@[i]->0.stack_bounds, self.tcb_list@[j]->0.stack_bounds) by {
                        assert(old_list[i] is Some && old_list[j] is Some);
                    }
                }
                Ok(())
            },
        }
    }

    /// Spawns task `task_id` with a fresh stack of `stack_size` bytes (rounded
    /// up to the architecture's alignment) taken from the pool right after the
    /// previous one. A task spawned while nothing runs becomes current; one
    /// spawned while a task runs takes over only if the policy says it should
    /// preempt, and the preempted task is requeued as ready. Spawning is pure
    /// bookkeeping: no context switch is requested here.
    #[verifier::spinoff_prover]
    pub fn spawn_task(
        &mut self,
        task_id: TaskId,
        priority: TaskPriority,
        stack_size: usize,
        entry_point: CtxSwitchType::TaskEntryPoint,
        entry_arg: CtxSwitchType::TaskEntryArg,
    ) -> (r: Result<(), KernelError>)
        requires
            old(self).wf(),
        ensures
            final(self).wf(),
            old(self).spawn_refused(task_id, stack_size) ==> {
                &&& r == Err::<(), KernelError>(KernelError::InvalidConfig)
                &&& *final(self) == *old(self)
            },
            r == old(self).spawn_outcome(task_id, priority, stack_size, entry_point, entry_arg),
            r is Ok ==> !old(self).spawn_refused(task_id, stack_size),
            r is Ok ==> old(self).spawn_admission(task_id, priority) is Ok,
            r is Ok ==> final(self).tcb(task_id.0 as int)->0.task_context == old(self).context_switch().initialise_spec(
                old(self).next_stack_bounds(stack_size).top,
                old(self).next_stack_bounds(stack_size).bottom,
                entry_point,
                entry_arg,
            )->Ok_0,
            r is Ok ==> final(self).guard_slots()[task_id.0 as int] == Some(old(self).stack_guard().initialised_ctx_spec(
                default_guard_ctx(old(self).next_stack_bounds(stack_size).top, old(self).next_stack_bounds(stack_size).bottom),
            )),
            r is Ok ==> final(self).current_task() == (if old(self).spawn_preempts(task_id, priority) {
                Some(task_id)
            } else {
                old(self).current_task()
            }),
            final(self).device_calls() == old(self).device_calls(),
            final(self).context_switch() == old(self).context_switch(),
            final(self).timer() == old(self).timer(),
            final(self).stack_guard() == old(self).stack_guard(),
            r is Ok ==> final(self).policy().state() == old(self).spawn_policy_state(task_id, priority),
            r is Err ==> *final(self) == *old(self) || {
                &&& !old(self).spawn_refused(task_id, stack_size)
                &&& r == old(self).spawn_admission(task_id, priority)
                &&& final(self).policy().state() == old(self).policy().state()
                &&& final(self).stack_cursor() == old(self).next_stack(stack_size).0 + old(self).next_stack(stack_size).1
                &&& final(self).tcb(task_id.0 as int) is Some
                &&& final(self).current_task() == old(self).current_task()
            },
            r is Ok ==> final(self).task_count() == old(self).task_count() + 1,
            r is Ok ==> final(self).stack_cursor() == old(self).next_stack(stack_size).0 + old(self).next_stack(stack_size).1,
            r is Ok ==> (final(self).tcb(task_id.0 as int) matches Some(t) && {
                &&& t.task_id == task_id
                &&& t.task_priority == priority
                &&& t.stack_bounds.bottom == old(self).pool_base() + old(self).next_stack(stack_size).0
                &&& t.stack_bounds.top == old(self).pool_base() + old(self).next_stack(stack_size).0
                    + old(self).next_stack(stack_size).1
            }),
            r is Ok && old(self).current_task() != Some(task_id) ==> (final(self).tcb(task_id.0 as int) matches Some(t)
                && (final(self).current_task() == Some(task_id) <==> t.task_state == TaskState::Running)),
            r is Ok ==> final(self).guard_slots()[task_id.0 as int] is Some,
            r is Ok ==> forall|j: int| 0 <= j < final(self).guard_slots().len() && j != task_id.0
                ==> #[trigger] final(self).guard_slots()[j] == old(self).guard_slots()[j],
            r is Ok ==> forall|j: int| 0 <= j < MAX_TASKS && j != task_id.0
                && old(self).current_task() != Some(TaskId(j as u32))
                ==> #[trigger] final(self).tcb(j) == old(self).tcb(j),
            r is Ok && old(self).current_task() is None ==> final(self).current_task() == Some(task_id),
            r is Ok ==> (final(self).current_task() == old(self).current_task()
                || final(self).current_task() == Some(task_id)),
            r is Ok && old(self).current_task() is Some && old(self).current_task()->0 != task_id
                && final(self).current_task() == Some(task_id)
                ==> (final(self).tcb((old(self).current_task()->0).0 as int) matches Some(pt)
                    && pt.task_state == TaskState::Ready),
            r is Err ==> final(self).task_count() == old(self).task_count(),
            final(self).pool_base() == old(self).pool_base(),
            final(self).pool_len() == old(self).pool_len(),
            final(self).guard_slots().len() == old(self).guard_slots().len(),
    {
        let idx = task_id.0 as usize;
        if idx >= self.stack_resources.stack_guard_slots.len() || idx >= MAX_TASKS {
            return Err(KernelError::InvalidConfig);
        }
        let align = CtxSwitchType::STACK_ALIGNMENT_BYTES;
        if align == 0 {
            return Err(KernelError::InvalidConfig);
        }
        if stack_size > usize::MAX - (align - 1) {
            return Err(KernelError::InvalidConfig);
        }
        let aligned_size = align_up(stack_size, align);
        if aligned_size < MIN_TASK_STACK_SIZE_BYTES {
            return Err(KernelError::InvalidConfig);
        }
        if self.stack_cursor > usize::MAX - (align - 1) {
            return Err(KernelError::InvalidConfig);
        }
        let cursor_aligned = align_up(self.stack_cursor, align);
        match cursor_aligned.checked_add(aligned_size) {
            None => {
                return Err(KernelError::InvalidConfig);
            },
            Some(end) => {
                if end > self.stack_resources.pool_len {
                    return Err(KernelError::InvalidConfig);
                }
            },
        }
        let stack_limit = self.stack_resources.pool_base + cursor_aligned;
        let stack_top = stack_limit + aligned_size;

        let task_context = match self.devices.initialise_task_context(stack_top, stack_limit, entry_point, entry_arg) {
            Ok(c) => c,
            Err(e) => {
                return Err(map_ctx_switch_err_to_kernel_err(e));
            },
        };

        let mut stack_guard_ctx = match build_default_stack_guard_ctx(stack_top, stack_limit) {
            Ok(c) => c,
            Err(e) => {
                return Err(e);
            },
        };
        match self.stack_resources.stack_guard.initialise(&mut stack_guard_ctx) {
            Ok(_) => {},
            Err(e) => {
                return Err(map_stack_guard_err_to_kernel_err(e));
            },
        }
        self.stack_resources.stack_guard_slots.set(idx, Some(stack_guard_ctx));

        let previous_task = self.curr_task;
        let preempt_current = match previous_task {
            None => true,
            Some(current_task_id) => {
                let current_priority = match &self.tcb_list[current_task_id.0 as usize] {
                    Some(tcb) => Some(tcb.get_priority()),
                    None => None,
                };
                match current_priority {
                    Some(curr_priority) => self.scheduler.should_preempt_current(
                        Some((current_task_id, curr_priority)),
                        (task_id, priority),
                    ),
                    None => false,
                }
            },
        };

        proof {
            use_type_invariant(&priority);
            priority.lemma_level_in_range();
        }
        let ghost mid = self.tcb_list@;
        self.tcb_list.set(idx, Some(TaskControlBlock {
            task_id,
            stack_bounds: StackBounds { bottom: stack_limit, top: stack_top },
            task_state: if preempt_current { TaskState::Running } else { TaskState::Ready },
            task_context,
            stack_guard_ctx,
            task_priority: priority,
        }));
        self.stack_cursor = cursor_aligned + aligned_size;
        proof {
            assert forall|i: int| 0 <= i < MAX_TASKS implies #[trigger] Self::tcb_ok(self.tcb_list@, self.stack_resources.pool_base, self.stack_cursor, i) by {
                assert(Self::tcb_ok(old(self).tcb_list@, old(self).stack_resources.pool_base, old(self).stack_cursor, i));
            }
            assert forall|i: int, j: int| 0 <= i < MAX_TASKS && 0 <= j < MAX_TASKS && i != j
                && (#[trigger] self.tcb_list@[i]) is Some && (#[trigger] self.tcb_list@[j]) is Some
                implies disjoint(self.tcb_list@[i]->0.stack_bounds, self.tcb_list@[j]->0.stack_bounds) by {
                assert(Self::tcb_ok(old(self).tcb_list@, old(self).stack_resources.pool_base, old(self).stack_cursor, i));
                assert(Self::tcb_ok(old(self).tcb_list@, old(self).stack_resources.pool_base, old(self).stack_cursor, j));
            }
        }

        if preempt_current {
            if let Some(previous_task_id) = previous_task {
                self.set_task_state(previous_task_id, TaskState::Ready)?;
                let previous_priority = match &self.tcb_list[previous_task_id.0 as usize] {
                    Some(tcb) => Some(tcb.get_priority()),
                    None => None,
                };
                if let Some(p) = previous_priority {
                    self.scheduler.enqueue_runnable(previous_task_id, p)?;
                }
            }
            self.curr_task = Some(task_id);
        } else {
            self.scheduler.register_task(task_id, priority)?;
        }
        self.task_count = self.task_count + 1;
        Ok(())
    }

    /// `after` and `r` are this kernel and the result after a yield with the
    /// stack guard passing: rescheduled, and on success a switch requested
    /// whether or not the current task changed.
    pub open spec fn yielded(
        &self,
        after: &Self,
        r: Result<(), KernelError>,
        head: Seq<DeviceCall<CtxSwitchType::TaskContext>>,
    ) -> bool {
        match self.resched_outcome() {
            Ok(_) => r == Ok::<(), KernelError>(()) && self.rescheduled(after, head, seq![DeviceCall::Trigger]),
            Err(e) => r == Err::<(), KernelError>(e) && self.rescheduled(after, head, Seq::empty()),
        }
    }

    /// `after` and `r` are this kernel and the result after a tick that asked
    /// for a reschedule, with the stack guard passing: rescheduled, and a
    /// switch requested exactly when the current task changed.
    pub open spec fn ticked(
        &self,
        after: &Self,
        r: Result<(), KernelError>,
        head: Seq<DeviceCall<CtxSwitchType::TaskContext>>,
    ) -> bool {
        match self.resched_outcome() {
            Ok(switched) => r == Ok::<(), KernelError>(()) && self.rescheduled(
                after,
                seq![DeviceCall::TickQuery, DeviceCall::TickAck] + head,
                if switched {
                    seq![DeviceCall::Trigger]
                } else {
                    Seq::empty()
                },
            ),
            Err(e) => r == Err::<(), KernelError>(e) && self.rescheduled(
                after,
                seq![DeviceCall::TickQuery, DeviceCall::TickAck] + head,
                Seq::empty(),
            ),
        }
    }

    /// Reschedules given the stack guard's verdict on the current task. A
    /// corrupted guard stops with `KernelError::StackGuard` before anything
    /// changes. Otherwise the current task (if any) is set Ready and requeued,
    /// the policy selects the next task, which becomes current and Running,
    /// and when the current task changed the outgoing context (to save into)
    /// and the incoming one (to restore) go to the context switch. Reports
    /// whether the current task changed.
    #[verifier::spinoff_prover]
    fn reschedule_after_check(&mut self, verdict: Result<(), StackGuardError>) -> (r: Result<bool, KernelError>)
        requires
            old(self).wf(),
        ensures
            final(self).wf(),
            old(self).same_layout(final(self)),
            final(self).timer() == old(self).timer(),
            final(self).guard_slots() == old(self).guard_slots(),
            verdict is Err ==> r == Err::<bool, KernelError>(KernelError::StackGuard) && old(self).guard_refused(final(self), Seq::empty()),
            verdict is Ok ==> r == old(self).resched_outcome() && old(self).rescheduled(final(self), Seq::empty(), Seq::empty()),
            verdict is Ok && r == Ok::<bool, KernelError>(true) ==> {
                &&& final(self).current_task() is Some
                &&& final(self).current_task() != old(self).current_task()
                &&& final(self).device_calls() == old(self).device_calls() + seq![
                    DeviceCall::SaveTo(match old(self).current_task() {
                        None => None,
                        Some(c) => Some(old(self).tcb(c.0 as int)->0.task_context),
                    }),
                    DeviceCall::Restore(old(self).tcb((final(self).current_task()->0).0 as int)->0.task_context),
                ]
            },
    {
        match verdict {
            Err(_) => {
                return Err(KernelError::StackGuard);
            },
            Ok(()) => {},
        }
        let ghost k0 = *self;
        let previous_task = self.curr_task;
        if let Some(current_task_id) = previous_task {
            proof {
                assert(Self::tcb_ok(self.tcb_list@, self.stack_resources.pool_base, self.stack_cursor, current_task_id.0 as int));
            }
            self.set_task_state(current_task_id, TaskState::Ready)?;
            let current_priority = match &self.tcb_list[current_task_id.0 as usize] {
                Some(tcb) => Some(tcb.get_priority()),
                None => None,
            };
            if let Some(p) = current_priority {
                self.scheduler.enqueue_runnable(current_task_id, p)?;
            }
        }
        let ghost k1 = *self;
        proof {
            assert(k1.policy().state() == k0.requeued_state());
            assert(k0.requeue_outcome() is Ok);
        }
        if let Some(next_task_id) = self.scheduler.select_next_runnable() {
            self.set_task_state(next_task_id, TaskState::Running)?;
            self.curr_task = Some(next_task_id);
        }
        let ghost k2 = *self;
        let switched = !same_task(self.curr_task, previous_task);
        proof {
            assert(k2.tcbs() =~= k0.resched_tcbs());
            assert(k2.curr_task == k0.resched_current());
            assert(switched == (k0.resched_outcome() == Ok::<bool, KernelError>(true)));
        }
        if switched {
            match previous_task {
                Some(id) => {
                    match self.tcb_list[id.0 as usize].as_mut() {
                        Some(tcb) => self.devices.save_into(tcb.get_context_mut()),
                        None => self.devices.save_nothing(),
                    }
                },
                None => {
                    self.devices.save_nothing();
                },
            }
            proof {
                assert forall|i: int| 0 <= i < MAX_TASKS implies
                    #[trigger] Self::tcb_ok(self.tcb_list@, self.stack_resources.pool_base, self.stack_cursor, i) by {
                    assert(Self::tcb_ok(k2.tcb_list@, k2.stack_resources.pool_base, k2.stack_cursor, i));
                }
                assert forall|i: int, j: int| 0 <= i < MAX_TASKS && 0 <= j < MAX_TASKS && i != j
                    && (#[trigger] self.tcb_list@[i]) is Some && (#[trigger] self.tcb_list@[j]) is Some
                    implies disjoint(self.tcb_list@[i]->0.stack_bounds, self.tcb_list@[j]->0.stack_bounds) by {
                    assert(k2.tcb_list@[i] is Some && k2.tcb_list@[j] is Some);
                }
            }
            if let Some(next_task_id) = self.curr_task {
                match &self.tcb_list[next_task_id.0 as usize] {
                    Some(tcb) => self.devices.restore(tcb.get_context()),
                    None => {},
                }
            }
            proof {
                assert(self.device_calls() =~= k0.device_calls() + k0.resched_calls() + Seq::empty());
                assert(k0.rescheduled(self, Seq::empty(), Seq::empty()));
                k0.lemma_reschedule_hands_over(self, Seq::empty(), Seq::empty());
                assert(k0.device_calls() + Seq::empty() + seq![
                    DeviceCall::SaveTo(match k0.current_task() {
                        None => None,
                        Some(c) => Some(k0.tcb(c.0 as int)->0.task_context),
                    }),
                    DeviceCall::Restore(k0.tcb((self.current_task()->0).0 as int)->0.task_context),
                ] + Seq::empty() =~= k0.device_calls() + seq![
                    DeviceCall::SaveTo(match k0.current_task() {
                        None => None,
                        Some(c) => Some(k0.tcb(c.0 as int)->0.task_context),
                    }),
                    DeviceCall::Restore(k0.tcb((self.current_task()->0).0 as int)->0.task_context),
                ]);
            }
        } else {
            proof {
                assert(self.device_calls() =~= k0.device_calls() + k0.resched_calls() + Seq::empty());
            }
        }
        Ok(switched)
    }

    /// Checks the current task's stack guard, when it has one, and then
    /// reschedules as `reschedule_after_check` does with the verdict; the
    /// checked guard context goes back into its slot.
    #[verifier::spinoff_prover]
    fn reschedule(&mut self) -> (r: Result<bool, KernelError>)
        requires
            old(self).wf(),
        ensures
            final(self).wf(),
            old(self).same_layout(final(self)),
            final(self).timer() == old(self).timer(),
            final(self).guard_slots() == old(self).checked_guard_slots(),
            !old(self).guard_consulted() ==> r == old(self).resched_outcome() && old(self).rescheduled(final(self), Seq::empty(), Seq::empty()),
            (old(self).current_task() matches Some(c) && c.0 < old(self).guard_slots().len() && old(
                self,
            ).guard_slots()[c.0 as int] is Some) ==> {
                &&& final(self).device_calls()[old(self).device_calls().len() as int] == DeviceCall::<
                    CtxSwitchType::TaskContext,
                >::GuardCheck(
                    old(self).guard_slots()[(old(self).current_task()->0).0 as int]->0,
                    final(self).verdict_at(old(self).device_calls().len() as int),
                )
                &&& final(self).verdict_at(old(self).device_calls().len() as int) is Err ==> r == Err::<
                    bool,
                    KernelError,
                >(KernelError::StackGuard)
            },
            old(self).guard_consulted() ==> ({
                let v = final(self).verdict_at(old(self).device_calls().len() as int);
                &&& v is Err ==> r == Err::<bool, KernelError>(KernelError::StackGuard) && old(self).guard_refused(
                    final(self),
                    old(self).guard_check_call(v),
                )
                &&& v is Ok ==> r == old(self).resched_outcome() && old(self).rescheduled(
                    final(self),
                    old(self).guard_check_call(v),
                    Seq::empty(),
                )
            }),
    {
        let ghost k0 = *self;
        let mut verdict: Result<(), StackGuardError> = Ok(());
        if let Some(tid) = self.curr_task {
            let i = tid.0 as usize;
            if i < self.stack_resources.stack_guard_slots.len() {
                let slot = self.stack_resources.stack_guard_slots[i];
                if let Some(ctx) = slot {
                    let mut ctx = ctx;
                    let guard = self.stack_resources.stack_guard;
                    verdict = self.devices.check_guard(&guard, &mut ctx);
                    self.stack_resources.stack_guard_slots.set(i, Some(ctx));
                }
            }
        }
        let ghost k1 = *self;
        proof {
            if k0.guard_consulted() {
                assert(k1.device_calls() == k0.device_calls() + k0.guard_check_call(verdict));
            } else {
                assert(k1.device_calls() == k0.device_calls());
            }
            assert(k1.tcbs() == k0.tcbs());
            assert(k1.current_task() == k0.current_task());
            assert(k1.policy() == k0.policy());
            assert(k1.stack_guard() == k0.stack_guard());
            assert(k1.context_switch() == k0.context_switch());
            assert(k1.resched_outcome() == k0.resched_outcome());
            assert(k1.resched_calls() == k0.resched_calls());
            assert(k1.resched_tcbs() == k0.resched_tcbs());
            assert(forall|i: int| k1.resched_saves_slot(i) == k0.resched_saves_slot(i));
        }
        let r = self.reschedule_after_check(verdict);
        proof {
            let n = k0.device_calls().len() as int;
            if k0.guard_consulted() {
                let head = k0.guard_check_call(verdict);
                if verdict is Ok {
                    assert(self.device_calls() == k1.device_calls() + Seq::empty() + k1.resched_calls() + Seq::empty());
                    assert(k1.device_calls() + Seq::empty() + k1.resched_calls() + Seq::empty() =~= k0.device_calls()
                        + head + k0.resched_calls() + Seq::empty());
                } else {
                    assert(self.device_calls() == k1.device_calls() + Seq::empty());
                    assert(k1.device_calls() + Seq::empty() =~= k0.device_calls() + head);
                }
                assert(self.device_calls()[n] == DeviceCall::<CtxSwitchType::TaskContext>::GuardCheck(k0.guard_ctx(), verdict));
                assert(self.verdict_at(n) == verdict);
            } else {
                assert(k1.device_calls() + Seq::empty() =~= k1.device_calls());
            }
        }
        r
    }

    /// Requeues the current task, selects the next one and requests a
    /// context switch, whether or not the selected task changed.
    #[verifier::spinoff_prover]
    pub fn yield_now(&mut self) -> (r: Result<(), KernelError>)
        requires
            old(self).wf(),
        ensures
            final(self).wf(),
            old(self).same_layout(final(self)),
            final(self).timer() == old(self).timer(),
            final(self).guard_slots() == old(self).checked_guard_slots(),
            !old(self).guard_consulted() ==> old(self).yielded(final(self), r, Seq::empty()),
            old(self).guard_consulted() ==> ({
                let v = final(self).verdict_at(old(self).device_calls().len() as int);
                &&& v is Err ==> r == Err::<(), KernelError>(KernelError::StackGuard) && old(self).guard_refused(
                    final(self),
                    old(self).guard_check_call(v),
                )
                &&& v is Ok ==> old(self).yielded(final(self), r, old(self).guard_check_call(v))
            }),
    {
        let ghost k0 = *self;
        let rescheduled = self.reschedule();
        let ghost k1 = *self;
        match rescheduled {
            Err(e) => {
                return Err(e);
            },
            Ok(_) => {},
        }
        self.devices.request_switch();
        proof {
            assert(self.tcbs() == k1.tcbs());
            assert(self.current_task() == k1.current_task());
            assert(self.policy() == k1.policy());
            assert(self.context_switch() == k1.context_switch());
            assert(self.stack_guard() == k1.stack_guard());
            assert(forall|i: int| #[trigger] self.tcb(i) == k1.tcb(i));
            let n = k0.device_calls().len() as int;
            if k0.guard_consulted() {
                let v = k1.verdict_at(n);
                let head = k0.guard_check_call(v);
                assert(k1.device_calls() =~= k0.device_calls() + head + k0.resched_calls() + Seq::empty());
                assert(self.device_calls() =~= k1.device_calls().push(DeviceCall::Trigger));
                assert(self.device_calls()[n] == k1.device_calls()[n]);
                assert(self.verdict_at(n) == v);
                assert(self.device_calls() =~= k0.device_calls() + head + k0.resched_calls() + seq![DeviceCall::Trigger]);
            } else {
                assert(self.device_calls() =~= k0.device_calls() + Seq::empty() + k0.resched_calls() + seq![DeviceCall::Trigger]);
            }
        }
        Ok(())
    }

    /// Runs `operation` on the kernel inside the board's critical section.
    pub fn execute_in_critical_section<Res, Op>(&mut self, operation: Op) -> (r: Res) where
        Op: FnOnce(&mut Self) -> Res,
        requires
            forall|t: &mut Self| *t == *old(self) ==> operation.requires((t,)),
        ensures
            exists|t: &mut Self| *t == *old(self) && *final(t) == *final(self) && #[trigger] operation.ensures((t,), r),
    {
        let crit = self.crit_section;
        crit.with_execute(self, operation)
    }

    /// Handles a system timer tick. The tick is acknowledged before any
    /// rescheduling, so the interrupt source is cleared even when
    /// rescheduling fails; a switch is requested only when the current task
    /// changed.
    #[verifier::spinoff_prover]
    pub fn on_tick_interrupt(&mut self) -> (r: Result<(), KernelError>)
        requires
            old(self).wf(),
        ensures
            final(self).wf(),
            old(self).same_layout(final(self)),
            old(self).timer().tick_spec() is Err ==> {
                &&& r == Err::<(), KernelError>(KernelError::TimerFault)
                &&& old(self).same_tasks(final(self))
                &&& final(self).device_calls() == old(self).device_calls().push(DeviceCall::TickQuery)
            },
            old(self).timer().tick_spec() is Ok && old(self).timer().acknowledge_spec() is Err ==> {
                &&& r == Err::<(), KernelError>(KernelError::TimerFault)
                &&& old(self).same_tasks(final(self))
                &&& final(self).device_calls() == old(self).device_calls() + seq![
                    DeviceCall::TickQuery,
                    DeviceCall::TickAck,
                ]
            },
            old(self).timer().tick_spec() == Ok::<TickAction, SystemTimerType::Error>(TickAction::NoAction)
                && old(self).timer().acknowledge_spec() is Ok ==> {
                &&& r == Ok::<(), KernelError>(())
                &&& old(self).same_tasks(final(self))
                &&& final(self).device_calls() == old(self).device_calls() + seq![
                    DeviceCall::TickQuery,
                    DeviceCall::TickAck,
                ]
            },
            old(self).timer().tick_spec() == Ok::<TickAction, SystemTimerType::Error>(TickAction::RequestReschedule)
                && old(self).timer().acknowledge_spec() is Ok ==> {
                &&& final(self).guard_slots() == old(self).checked_guard_slots()
                &&& !old(self).guard_consulted() ==> old(self).ticked(final(self), r, Seq::empty())
                &&& old(self).guard_consulted() ==> ({
                    let v = final(self).verdict_at(old(self).device_calls().len() as int + 2);
                    &&& v is Err ==> r == Err::<(), KernelError>(KernelError::StackGuard) && old(self).guard_refused(
                        final(self),
                        seq![DeviceCall::TickQuery, DeviceCall::TickAck] + old(self).guard_check_call(v),
                    )
                    &&& v is Ok ==> old(self).ticked(final(self), r, old(self).guard_check_call(v))
                })
            },
    {
        let ghost k0 = *self;
        let action = match self.devices.query_tick() {
            Ok(a) => a,
            Err(e) => {
                return Err(map_timer_err_to_kernel_err(e));
            },
        };
        match self.devices.acknowledge_tick() {
            Ok(()) => {},
            Err(e) => {
                return Err(map_timer_err_to_kernel_err(e));
            },
        }
        if let TickAction::RequestReschedule = action {
            let ghost k1 = *self;
            proof {
                assert(k1.device_calls() == k0.device_calls() + seq![DeviceCall::TickQuery, DeviceCall::TickAck]);
                assert(k1.tcbs() == k0.tcbs());
                assert(k1.current_task() == k0.current_task());
                assert(k1.policy() == k0.policy());
                assert(k1.guard_slots() == k0.guard_slots());
                assert(k1.stack_guard() == k0.stack_guard());
                assert(k1.context_switch() == k0.context_switch());
                assert(k1.resched_outcome() == k0.resched_outcome());
                assert(k1.resched_calls() == k0.resched_calls());
                assert(k1.resched_tcbs() == k0.resched_tcbs());
                assert(k1.resched_current() == k0.resched_current());
                assert(k1.resched_policy_state() == k0.resched_policy_state());
                assert(k1.checked_guard_slots() == k0.checked_guard_slots());
                assert(forall|i: int| k1.resched_saves_slot(i) == k0.resched_saves_slot(i));
            }
            let reschedule_op = (
                |kernel: &mut Self| -> (res: Result<bool, KernelError>)
                    requires
                        old(kernel).wf(),
                    ensures
                        final(kernel).wf(),
                        old(kernel).same_layout(final(kernel)),
                        final(kernel).timer() == old(kernel).timer(),
                        final(kernel).guard_slots() == old(kernel).checked_guard_slots(),
                        !old(kernel).guard_consulted() ==> res == old(kernel).resched_outcome() && old(
                            kernel,
                        ).rescheduled(final(kernel), Seq::empty(), Seq::empty()),
                        old(kernel).guard_consulted() ==> ({
                            let v = final(kernel).verdict_at(old(kernel).device_calls().len() as int);
                            &&& v is Err ==> res == Err::<bool, KernelError>(KernelError::StackGuard) && old(
                                kernel,
                            ).guard_refused(final(kernel), old(kernel).guard_check_call(v))
                            &&& v is Ok ==> res == old(kernel).resched_outcome() && old(kernel).rescheduled(
                                final(kernel),
                                old(kernel).guard_check_call(v),
                                Seq::empty(),
                            )
                        }),
                    {
                        kernel.reschedule()
                    }
            );
            let switched = self.execute_in_critical_section(reschedule_op);
            let ghost k2 = *self;
            let ghost n = k0.device_calls().len() as int;
            let ghost tick_head = seq![DeviceCall::TickQuery, DeviceCall::TickAck];
            proof {
                assert(k0.same_layout(&k1));
                assert(k1.same_layout(self));
                assert(k0.same_layout(self));
                assert(self.timer() == k1.timer());
                assert(self.guard_slots() == k1.checked_guard_slots());
                assert(k1.guard_consulted() == k0.guard_consulted());
                assert(forall|v: Result<(), StackGuardError>| k1.guard_check_call(v) == k0.guard_check_call(v));
                assert(k1.device_calls().len() == n + 2);
                if k0.guard_consulted() {
                    let v = k2.verdict_at(n + 2);
                    let head = k0.guard_check_call(v);
                    if v is Err {
                        assert(k2.device_calls() == k1.device_calls() + head);
                        assert(k1.device_calls() + head =~= k0.device_calls() + (tick_head + head));
                    } else {
                        assert(k2.device_calls() == k1.device_calls() + head + k1.resched_calls() + Seq::empty());
                        assert(k1.device_calls() + head + k1.resched_calls() + Seq::empty() =~= k0.device_calls()
                            + (tick_head + head) + k0.resched_calls() + Seq::empty());
                    }
                } else {
                    assert(k1.device_calls() + Seq::empty() + k1.resched_calls() + Seq::empty() =~= k0.device_calls()
                        + (tick_head + Seq::empty()) + k0.resched_calls() + Seq::empty());
                }
            }
            let switched = match switched {
                Ok(b) => b,
                Err(e) => {
                    proof {
                        if k0.guard_consulted() {
                            let v = k2.verdict_at(n + 2);
                            if v is Ok {
                                assert(k0.ticked(&k2, Err(e), k0.guard_check_call(v)));
                            } else {
                                assert(k0.guard_refused(&k2, tick_head + k0.guard_check_call(v)));
                            }
                        } else {
                            assert(k0.ticked(&k2, Err(e), Seq::empty()));
                        }
                    }
                    return Err(e);
                },
            };
            if switched {
                self.devices.request_switch();
                proof {
                    assert(self.device_calls() =~= k2.device_calls().push(DeviceCall::Trigger));
                    assert(self.tcbs() == k2.tcbs());
                    assert(self.current_task() == k2.current_task());
                    assert(self.policy() == k2.policy());
                    assert(self.context_switch() == k2.context_switch());
                    assert(self.stack_guard() == k2.stack_guard());
                    assert(self.device_calls()[n + 2] == k2.device_calls()[n + 2]);
                    if k0.guard_consulted() {
                        let v = k2.verdict_at(n + 2);
                        assert(self.verdict_at(n + 2) == v);
                        assert(self.device_calls() =~= k0.device_calls() + (tick_head + k0.guard_check_call(v))
                            + k0.resched_calls() + seq![DeviceCall::Trigger]);
                        assert(v is Ok);
                        assert(k1.rescheduled(&k2, k0.guard_check_call(v), Seq::empty()));
                        assert forall|i: int| 0 <= i < MAX_TASKS && !k0.resched_saves_slot(i) implies #[trigger] self.tcb(i)
                            == k0.resched_tcbs()[i] by {
                            assert(!k1.resched_saves_slot(i));
                            assert(k2.tcb(i) == k1.resched_tcbs()[i]);
                        }
                        assert forall|i: int| 0 <= i < MAX_TASKS && k0.resched_saves_slot(i) implies (
                        #[trigger] self.tcb(i) matches Some(t) && t == (TaskControlBlock {
                            task_context: t.task_context,
                            ..k0.resched_tcbs()[i]->0
                        })) by {
                            assert(k1.resched_saves_slot(i));
                            assert(k2.tcb(i) == self.tcb(i));
                        }
                        assert(k0.ticked(self, Ok(()), k0.guard_check_call(v)));
                    } else {
                        assert(self.device_calls() =~= k0.device_calls() + (tick_head + Seq::empty()) + k0.resched_calls()
                            + seq![DeviceCall::Trigger]);
                    }
                }
            }
        }
        Ok(())
    }

    /// Starts periodic ticks; call once every task is spawned.
    pub fn start_system_timer(&mut self) -> (r: Result<(), KernelError>)
        requires
            old(self).wf(),
        ensures
            final(self).wf(),
            r is Ok <==> old(self).timer().start_spec() is Ok,
            r is Err ==> r == Err::<(), KernelError>(KernelError::TimerFault),
            old(self).same_tasks(final(self)),
            final(self).current_task() == old(self).current_task(),
            old(self).same_layout(final(self)),
            forall|i: int| 0 <= i < MAX_TASKS ==> #[trigger] final(self).tcb(i) == old(self).tcb(i),
            final(self).device_calls() == old(self).device_calls().push(DeviceCall::TimerStart),
            final(self).context_switch() == old(self).context_switch(),
    {
        match self.devices.start_timer() {
            Ok(()) => Ok(()),
            Err(e) => Err(map_timer_err_to_kernel_err(e)),
        }
    }

    /// Starts the system: starts the tick source, then dispatches into the
    /// current task (nothing was running before, so no context is saved).
    /// With no task spawned only the tick source is started.
    pub fn start(&mut self) -> (r: Result<(), KernelError>)
        requires
            old(self).wf(),
        ensures
            final(self).wf(),
            r is Ok <==> old(self).timer().start_spec() is Ok,
            r is Err ==> r == Err::<(), KernelError>(KernelError::TimerFault),
            old(self).same_tasks(final(self)),
            final(self).current_task() == old(self).current_task(),
            old(self).same_layout(final(self)),
            forall|i: int| 0 <= i < MAX_TASKS ==> #[trigger] final(self).tcb(i) == old(self).tcb(i),
            r is Ok && old(self).current_task() is Some ==> final(self).device_calls() == old(self).device_calls()
                + seq![
                DeviceCall::TimerStart,
                DeviceCall::SaveTo(None),
                DeviceCall::Restore(old(self).tcb((old(self).current_task()->0).0 as int)->0.task_context),
                DeviceCall::Trigger,
            ],
            !(r is Ok && old(self).current_task() is Some) ==> final(self).device_calls() == old(self).device_calls().push(
                DeviceCall::TimerStart,
            ),
    {
        let ghost k0 = *self;
        self.start_system_timer()?;
        if let Some(id) = self.curr_task {
            self.devices.save_nothing();
            match &self.tcb_list[id.0 as usize] {
                Some(tcb) => self.devices.restore(tcb.get_context()),
                None => {},
            }
            self.devices.request_switch();
            proof {
                assert(self.device_calls() =~= k0.device_calls() + seq![
                    DeviceCall::TimerStart,
                    DeviceCall::SaveTo(None),
                    DeviceCall::Restore(k0.tcb(id.0 as int)->0.task_context),
                    DeviceCall::Trigger,
                ]);
            }
        }
        Ok(())
    }

    /// The task that currently owns the processor.
    pub fn get_current_task(&self) -> (r: Option<TaskId>)
        ensures
            r == self.current_task(),
    {
        self.curr_task
    }

    /// Number of tasks spawned so far.
    pub fn get_task_count(&self) -> (r: usize)
        ensures
            r == self.task_count(),
    {
        self.task_count
    }
}

impl<CtxSwitchType, CriticalSectionType, StackGuardImpl, SystemTimerType> Kernel<
    CtxSwitchType,
    CriticalSectionType,
    FppScheduler,
    StackGuardImpl,
    SystemTimerType,
> where
    CtxSwitchType: ContextSwitch,
    CriticalSectionType: CriticalSection + Copy,
    StackGuardImpl: StackGuard + Copy,
    SystemTimerType: SystemTimer,
 {
    /// Under fixed-priority scheduling a spawned task takes the processor
    /// exactly when nothing runs or it is strictly more urgent than the
    /// running task; an equally urgent task waits its turn.
    pub proof fn lemma_fpp_spawn_preempts_iff_more_urgent(&self, task_id: TaskId, priority: TaskPriority)
        requires
            self.wf(),
        ensures
            self.current_task() is None ==> self.spawn_preempts(task_id, priority),
            self.current_task() is Some ==> (self.spawn_preempts(task_id, priority)
                <==> priority.level() < self.current_priority().level()),
    {
        if self.current_task() is Some {
            assert(self.tcb_list@[(self.curr_task->0).0 as int] is Some);
        }
    }

    /// Under fixed-priority scheduling a reschedule that goes through puts the
    /// task that was running at the tail of its level's queue and hands the
    /// processor to the front of the most urgent non-empty queue (which may
    /// be that task again), taking it out of the queues.
    pub proof fn lemma_fpp_reschedule_rotates(
        &self,
        after: &Self,
        head: Seq<DeviceCall<CtxSwitchType::TaskContext>>,
        tail: Seq<DeviceCall<CtxSwitchType::TaskContext>>,
    )
        requires
            self.wf(),
            self.resched_outcome() is Ok,
            self.rescheduled(after, head, tail),
        ensures
            ({
                let q = match self.current_task() {
                    None => self.policy().queues(),
                    Some(c) => after_enqueue(self.policy().queues(), c, self.current_priority().level() as int),
                };
                &&& after.policy().queues() == after_select(q)
                &&& selected(q) is Some ==> after.current_task() == selected(q)
                &&& selected(q) is None ==> after.current_task() == self.current_task()
            }),
    {
    }

    /// Under fixed-priority scheduling a spawn that commits queues exactly one
    /// task at the tail of its level: the displaced task when the new one
    /// preempts, otherwise the new task.
    pub proof fn lemma_fpp_spawn_queues(&self, task_id: TaskId, priority: TaskPriority)
        requires
            self.wf(),
        ensures
            self.spawn_policy_state(task_id, priority) == if self.spawn_preempts(task_id, priority) {
                match self.current_task() {
                    None => self.policy().queues(),
                    Some(c) => after_enqueue(
                        self.policy().queues(),
                        c,
                        (if c == task_id { priority } else { self.current_priority() }).level() as int,
                    ),
                }
            } else {
                after_enqueue(self.policy().queues(), task_id, priority.level() as int)
            },
    {
    }

    /// Under fixed-priority scheduling a yielding task keeps the processor
    /// only while no task of its own or a more urgent level waits; otherwise
    /// the front of the most urgent waiting queue takes over, so equally
    /// urgent tasks take turns.
    pub proof fn lemma_fpp_yield_hands_over(&self)
        requires
            self.wf(),
            self.current_task() is Some,
        ensures
            self.resched_pick() == if first_ready(
                self.policy().queues(),
            ) <= self.current_priority().level() {
                selected(self.policy().queues())
            } else {
                self.current_task()
            },
    {
        let c = self.curr_task->0;
        assert(Self::tcb_ok(self.tcb_list@, self.stack_resources.pool_base, self.stack_cursor, c.0 as int));
        self.policy().lemma_queues_valid();
        lemma_enqueue_never_overtakes(self.policy().queues(), c, self.current_priority().level() as int);
    }
}

} // verus!
