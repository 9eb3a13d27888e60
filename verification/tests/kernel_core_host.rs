use std::collections::HashMap;
use std::sync::atomic::{AtomicU32, Ordering};
use std::sync::{Arc, Mutex};

use lib::hal::{ContextSwitch, CriticalSection, StackGuard, SystemTimer};
use lib::kernel::Kernel;
use lib::scheduler::{FppScheduler, SchedulerPolicy};
use lib::stack_resources::KernelStackResources;
use lib::task_priority::TaskPriority;
use lib::types::{
    ContextSwitchError, KernelError, StackGuardContext, StackGuardError, StackGuardMode,
    StackGuardState, TaskId, TickAction,
};

const TEST_MAX_TASKS: usize = 32;

/// Stack guard that keeps canary words in a shared map instead of stack memory.
#[derive(Clone, Copy)]
struct MockStackGuard;

fn canaries() -> &'static Mutex<HashMap<usize, u32>> {
    static CANARIES: std::sync::OnceLock<Mutex<HashMap<usize, u32>>> = std::sync::OnceLock::new();
    CANARIES.get_or_init(|| Mutex::new(HashMap::new()))
}

impl MockStackGuard {
    /// What `initialise` does to the context, without touching the canary store.
    fn initialise_model(&self, ctx: &mut StackGuardContext) -> Result<StackGuardState, StackGuardError> {
        if ctx.stack_limit == 0 || ctx.stack_top == 0 || ctx.stack_top <= ctx.stack_limit {
            return Err(StackGuardError::InvalidStackBounds);
        }
        ctx.state.low_mark = ctx.stack_limit;
        Ok(ctx.state)
    }
}

impl StackGuard for MockStackGuard {
    fn initialise_spec(&self, ctx: StackGuardContext) -> Result<StackGuardState, StackGuardError> {
        let mut c = ctx;
        self.initialise_model(&mut c)
    }

    fn initialised_ctx_spec(&self, ctx: StackGuardContext) -> StackGuardContext {
        let mut c = ctx;
        let _ = self.initialise_model(&mut c);
        c
    }

    fn initialise(&self, ctx: &mut StackGuardContext) -> Result<StackGuardState, StackGuardError> {
        if ctx.stack_limit == 0 || ctx.stack_top == 0 {
            return Err(StackGuardError::InvalidStackBounds);
        }
        if ctx.stack_top <= ctx.stack_limit {
            return Err(StackGuardError::InvalidStackBounds);
        }
        if matches!(ctx.config.mode, StackGuardMode::Canary) {
            canaries().lock().unwrap().insert(ctx.stack_limit, ctx.config.canary_word);
        }
        ctx.state.low_mark = ctx.stack_limit;
        Ok(ctx.state)
    }

    fn checked_ctx_spec(&self, ctx: StackGuardContext) -> StackGuardContext {
        ctx
    }

    fn check(&self, ctx: &mut StackGuardContext) -> Result<(), StackGuardError> {
        if matches!(ctx.config.mode, StackGuardMode::Canary) {
            let v = canaries().lock().unwrap().get(&ctx.stack_limit).copied();
            if v != Some(ctx.config.canary_word) {
                return Err(StackGuardError::GuardCorrupted);
            }
        }
        Ok(())
    }
}

#[derive(Clone)]
struct MockContextSwitch {
    trigger_count: Arc<AtomicU32>,
    activated_contexts: Arc<Mutex<Vec<usize>>>,
    outgoing_contexts: Arc<Mutex<Vec<Option<usize>>>>,
    initialised_bounds: Arc<Mutex<Vec<(usize, usize)>>>,
}

impl MockContextSwitch {
    fn new() -> (Self, Arc<AtomicU32>) {
        let trigger_count = Arc::new(AtomicU32::new(0));
        (
            Self {
                trigger_count: trigger_count.clone(),
                activated_contexts: Arc::new(Mutex::new(Vec::new())),
                outgoing_contexts: Arc::new(Mutex::new(Vec::new())),
                initialised_bounds: Arc::new(Mutex::new(Vec::new())),
            },
            trigger_count,
        )
    }
}

/// Entry point of test tasks; never run.
fn dummy_entry(_arg: usize) {}

/// The null task argument.
fn null_mut() -> usize {
    0
}

impl ContextSwitch for MockContextSwitch {
    const STACK_ALIGNMENT_BYTES: usize = 8;
    type TaskContext = usize;
    type TaskEntryPoint = fn(usize);
    type TaskEntryArg = usize;

    fn initialise_spec(&self, stack_top: usize, _stack_limit: usize, _entry_point: fn(usize), _entry_arg: usize) -> Result<usize, ContextSwitchError> {
        Ok(stack_top)
    }

    fn initialise_task_context(
        &self,
        stack_top: usize,
        stack_limit: usize,
        _entry_point: Self::TaskEntryPoint,
        _entry_arg: Self::TaskEntryArg,
    ) -> Result<Self::TaskContext, ContextSwitchError> {
        self.initialised_bounds.lock().unwrap().push((stack_limit, stack_top));
        Ok(stack_top)
    }

    fn trigger_pendsv_switch(&self) {
        self.trigger_count.fetch_add(1, Ordering::SeqCst);
    }

    fn activate_next_task(&self, ctx: &Self::TaskContext) {
        self.activated_contexts.lock().unwrap().push(*ctx);
    }

    fn set_current_task_context(&self, ctx: Option<&mut Self::TaskContext>) {
        self.outgoing_contexts.lock().unwrap().push(ctx.map(|c| *c));
    }
}

#[derive(Clone, Copy)]
struct MockCriticalSection;

impl CriticalSection for MockCriticalSection {
    fn with_execute<T, Res, Op: FnOnce(&mut T) -> Res>(&self, target: &mut T, operation: Op) -> Res {
        operation(target)
    }
}

struct MockScheduler;

impl SchedulerPolicy for MockScheduler {
    type State = ();

    fn state(&self) -> () {}

    fn preempts_spec(&self, _current: Option<(TaskId, TaskPriority)>, _candidate: (TaskId, TaskPriority)) -> bool {
        false
    }

    fn register_outcome(_s: (), _task_id: TaskId, _priority: TaskPriority) -> Result<(), KernelError> {
        Ok(())
    }

    fn state_after_register(_s: (), _task_id: TaskId, _priority: TaskPriority) -> () {}

    fn enqueue_outcome(_s: (), _task_id: TaskId, _priority: TaskPriority) -> Result<(), KernelError> {
        Ok(())
    }

    fn state_after_enqueue(_s: (), _task_id: TaskId, _priority: TaskPriority) -> () {}

    fn next_in(_s: ()) -> Option<TaskId> {
        None
    }

    fn state_after_select(_s: ()) -> () {}

    fn register_task(&mut self, _task_id: TaskId, _priority: TaskPriority) -> Result<(), KernelError> {
        Ok(())
    }

    fn enqueue_runnable(&mut self, _task_id: TaskId, _priority: TaskPriority) -> Result<(), KernelError> {
        Ok(())
    }

    fn select_next_runnable(&mut self) -> Option<TaskId> {
        None
    }

    fn should_preempt_current(&self, _current: Option<(TaskId, TaskPriority)>, _candidate: (TaskId, TaskPriority)) -> bool {
        false
    }
}

struct MockSystemTimer {
    next_action: TickAction,
    ack_count: Arc<AtomicU32>,
}

impl MockSystemTimer {
    fn new(next_action: TickAction) -> (Self, Arc<AtomicU32>) {
        let ack_count = Arc::new(AtomicU32::new(0));
        (Self { next_action, ack_count: ack_count.clone() }, ack_count)
    }
}

impl SystemTimer for MockSystemTimer {
    type Error = ();

    fn start_spec(&self) -> Result<(), Self::Error> {
        Ok(())
    }

    fn tick_spec(&self) -> Result<TickAction, Self::Error> {
        Ok(self.next_action)
    }

    fn initialise(&mut self, _reload_ticks: u32) -> Result<(), Self::Error> {
        Ok(())
    }

    fn start(&mut self) -> Result<(), Self::Error> {
        Ok(())
    }

    fn stop(&mut self) -> Result<(), Self::Error> {
        Ok(())
    }

    fn acknowledge_spec(&self) -> Result<(), Self::Error> {
        Ok(())
    }

    fn acknowledge_tick_interrupt(&mut self) -> Result<(), Self::Error> {
        self.ack_count.fetch_add(1, Ordering::SeqCst);
        Ok(())
    }

    fn on_tick_interrupt(&mut self) -> Result<TickAction, Self::Error> {
        Ok(self.next_action)
    }
}

/// A distinct, 8-aligned fake address range per pool so tests never share stacks.
fn pool(len: usize) -> (usize, usize) {
    static NEXT_BASE: AtomicU32 = AtomicU32::new(0x1000);
    let base = NEXT_BASE.fetch_add(0x10_0000, Ordering::SeqCst) as usize * 16;
    (base, len)
}

fn test_resources(pool: (usize, usize)) -> KernelStackResources<MockStackGuard> {
    KernelStackResources::new(pool.0, pool.1, MockStackGuard, vec![None; TEST_MAX_TASKS])
}

#[test]
fn kernel_core_host_kernel_init_with_mocks() {
    let pool = pool(1024);
    let (mock_ctx_switch, _trigger_count) = MockContextSwitch::new();
    let (mock_timer, _ack_count) = MockSystemTimer::new(TickAction::NoAction);
    let kernel = Kernel::new(mock_ctx_switch, MockCriticalSection, MockScheduler, test_resources(pool), mock_timer);

    assert_eq!(kernel.get_task_count(), 0);
    assert_eq!(kernel.get_current_task(), None);
}

#[test]
fn kernel_core_host_spawn_task_registers_first_task() {
    let pool = pool(1024);
    let (mock_ctx_switch, _trigger_count) = MockContextSwitch::new();
    let (mock_timer, _ack_count) = MockSystemTimer::new(TickAction::NoAction);
    let mut kernel = Kernel::new(mock_ctx_switch, MockCriticalSection, MockScheduler, test_resources(pool), mock_timer);

    let result = kernel.spawn_task(TaskId(1), TaskPriority::new(1).unwrap(), 1024, dummy_entry, null_mut());

    assert!(result.is_ok());
    assert_eq!(kernel.get_task_count(), 1);
    assert_eq!(kernel.get_current_task(), Some(TaskId(1)));
}

#[test]
fn kernel_core_host_spawn_task_rejects_null_stack_top() {
    let pool = pool(1024);
    let (mock_ctx_switch, _trigger_count) = MockContextSwitch::new();
    let (mock_timer, _ack_count) = MockSystemTimer::new(TickAction::NoAction);
    let mut kernel = Kernel::new(mock_ctx_switch, MockCriticalSection, MockScheduler, test_resources(pool), mock_timer);

    let result = kernel.spawn_task(TaskId(1), TaskPriority::new(1).unwrap(), 32, dummy_entry, null_mut());

    assert_eq!(result, Err(KernelError::InvalidConfig));
    assert_eq!(kernel.get_task_count(), 0);
    assert_eq!(kernel.get_current_task(), None);
}

#[test]
fn spawn_task_stacks_exactly_fill_the_pool_with_no_gaps_or_overflow() {
    let pool = pool(4096);
    let pool_base = pool.0;
    let pool_end = pool_base + pool.1;

    let (mock_ctx_switch, _trigger_count) = MockContextSwitch::new();
    let bounds = mock_ctx_switch.initialised_bounds.clone();
    let (mock_timer, _ack_count) = MockSystemTimer::new(TickAction::NoAction);
    let mut kernel = Kernel::new(mock_ctx_switch, MockCriticalSection, MockScheduler, test_resources(pool), mock_timer);

    // 4 tasks x 1024 bytes == the pool's exact size -> must fit with zero slack
    for id in 1..=4 {
        let result = kernel.spawn_task(TaskId(id), TaskPriority::new(1).unwrap(), 1024, dummy_entry, null_mut());
        assert!(result.is_ok(), "task {id} failed to spawn within an exactly-sized pool");
    }
    assert_eq!(kernel.get_task_count(), 4);

    let bounds = bounds.lock().unwrap();
    assert_eq!(bounds.len(), 4);

    assert_eq!(bounds[0].0, pool_base);
    for i in 1..bounds.len() {
        assert_eq!(bounds[i].0, bounds[i - 1].1, "gap or overlap between task {} and task {}", i, i + 1);
    }
    assert_eq!(bounds[bounds.len() - 1].1, pool_end);

    // one more stack must be rejected, not silently overflowed
    let overflow_result = kernel.spawn_task(TaskId(5), TaskPriority::new(1).unwrap(), 512, dummy_entry, null_mut());
    assert_eq!(overflow_result, Err(KernelError::InvalidConfig));
    assert_eq!(kernel.get_task_count(), 4);
}

#[test]
fn kernel_core_host_execute_in_critical_section_runs_operation() {
    let pool = pool(1024);
    let (mock_ctx_switch, _trigger_count) = MockContextSwitch::new();
    let (mock_timer, _ack_count) = MockSystemTimer::new(TickAction::NoAction);
    let mut kernel = Kernel::new(mock_ctx_switch, MockCriticalSection, MockScheduler, test_resources(pool), mock_timer);

    let value: usize = kernel.execute_in_critical_section(|_kernel| 42);
    assert_eq!(value, 42);
}

#[test]
fn kernel_core_host_yield_now_triggers_ctx_switch() {
    let pool = pool(1024);
    let (mock_ctx_switch, trigger_count) = MockContextSwitch::new();
    let (mock_timer, _ack_count) = MockSystemTimer::new(TickAction::NoAction);
    let mut kernel = Kernel::new(mock_ctx_switch, MockCriticalSection, MockScheduler, test_resources(pool), mock_timer);

    kernel.yield_now().unwrap();
    assert_eq!(trigger_count.load(Ordering::SeqCst), 1);
}

#[test]
fn on_tick_interrupt_triggers_switch_when_task_changes() {
    let pool = pool(4096);
    let (mock_ctx_switch, trigger_count) = MockContextSwitch::new();
    let (mock_timer, _ack_count) = MockSystemTimer::new(TickAction::RequestReschedule);
    let mut kernel = Kernel::new(mock_ctx_switch, MockCriticalSection, FppScheduler::new(), test_resources(pool), mock_timer);

    let priority = TaskPriority::new(10).unwrap();
    kernel.spawn_task(TaskId(1), priority, 1024, dummy_entry, null_mut()).unwrap();
    kernel.spawn_task(TaskId(2), priority, 1024, dummy_entry, null_mut()).unwrap();
    assert_eq!(kernel.get_current_task(), Some(TaskId(1)));
    assert_eq!(trigger_count.load(Ordering::SeqCst), 0);

    kernel.on_tick_interrupt().unwrap();

    assert_eq!(trigger_count.load(Ordering::SeqCst), 1);
    assert_eq!(kernel.get_current_task(), Some(TaskId(2)));
}

#[test]
fn on_tick_interrupt_does_not_trigger_switch_when_no_action_requested() {
    let pool = pool(4096);
    let (mock_ctx_switch, trigger_count) = MockContextSwitch::new();
    let (mock_timer, _ack_count) = MockSystemTimer::new(TickAction::NoAction);
    let mut kernel = Kernel::new(mock_ctx_switch, MockCriticalSection, FppScheduler::new(), test_resources(pool), mock_timer);

    let priority = TaskPriority::new(10).unwrap();
    kernel.spawn_task(TaskId(1), priority, 1024, dummy_entry, null_mut()).unwrap();
    kernel.spawn_task(TaskId(2), priority, 1024, dummy_entry, null_mut()).unwrap();
    assert_eq!(trigger_count.load(Ordering::SeqCst), 0);

    kernel.on_tick_interrupt().unwrap();

    assert_eq!(trigger_count.load(Ordering::SeqCst), 0);
    assert_eq!(kernel.get_current_task(), Some(TaskId(1)));
}

#[test]
fn on_tick_interrupt_does_not_trigger_switch_when_only_task_reselects_itself() {
    let pool = pool(1024);
    let (mock_ctx_switch, trigger_count) = MockContextSwitch::new();
    let (mock_timer, _ack_count) = MockSystemTimer::new(TickAction::RequestReschedule);
    let mut kernel = Kernel::new(mock_ctx_switch, MockCriticalSection, FppScheduler::new(), test_resources(pool), mock_timer);

    kernel.spawn_task(TaskId(1), TaskPriority::new(10).unwrap(), 1024, dummy_entry, null_mut()).unwrap();

    kernel.on_tick_interrupt().unwrap();

    assert_eq!(trigger_count.load(Ordering::SeqCst), 0);
    assert_eq!(kernel.get_current_task(), Some(TaskId(1)));
}

#[test]
fn on_tick_interrupt_with_no_tasks_is_a_safe_no_op() {
    let pool = pool(1024);
    let (mock_ctx_switch, trigger_count) = MockContextSwitch::new();
    let (mock_timer, _ack_count) = MockSystemTimer::new(TickAction::RequestReschedule);
    let mut kernel = Kernel::new(mock_ctx_switch, MockCriticalSection, FppScheduler::new(), test_resources(pool), mock_timer);

    let result = kernel.on_tick_interrupt();

    assert!(result.is_ok());
    assert_eq!(trigger_count.load(Ordering::SeqCst), 0);
    assert_eq!(kernel.get_current_task(), None);
}

#[test]
fn spawn_task_propagates_ready_queue_full_error() {
    let pool = pool(16384);
    let (mock_ctx_switch, _trigger_count) = MockContextSwitch::new();
    let (mock_timer, _ack_count) = MockSystemTimer::new(TickAction::NoAction);
    let mut kernel = Kernel::new(mock_ctx_switch, MockCriticalSection, FppScheduler::new(), test_resources(pool), mock_timer);

    let same_priority = TaskPriority::new(15).unwrap();

    // the first spawn becomes current and is not enqueued, so 9 spawns fill
    // the ready queue (capacity 8) before the 10th overflows it.
    for i in 0..9u32 {
        let result = kernel.spawn_task(TaskId(i), same_priority, 1024, dummy_entry, null_mut());
        assert!(result.is_ok(), "spawn {i} unexpectedly failed: {result:?}");
    }

    let result = kernel.spawn_task(TaskId(9), same_priority, 1024, dummy_entry, null_mut());

    assert_eq!(result, Err(KernelError::ReadyQueueFull));
}

#[test]
fn yield_now_same_priority_advances_to_next_task() {
    let pool = pool(4096);
    let (mock_ctx_switch, trigger_count) = MockContextSwitch::new();
    let (mock_timer, _ack_count) = MockSystemTimer::new(TickAction::NoAction);
    let mut kernel = Kernel::new(mock_ctx_switch, MockCriticalSection, FppScheduler::new(), test_resources(pool), mock_timer);

    let priority = TaskPriority::new(12).unwrap();
    kernel.spawn_task(TaskId(1), priority, 1024, dummy_entry, null_mut()).unwrap();
    kernel.spawn_task(TaskId(2), priority, 1024, dummy_entry, null_mut()).unwrap();
    assert_eq!(kernel.get_current_task(), Some(TaskId(1)));
    assert_eq!(trigger_count.load(Ordering::SeqCst), 0);

    kernel.yield_now().unwrap();
    assert_eq!(trigger_count.load(Ordering::SeqCst), 1);
    assert_eq!(kernel.get_current_task(), Some(TaskId(2)));

    kernel.yield_now().unwrap();
    assert_eq!(trigger_count.load(Ordering::SeqCst), 2);
    assert_eq!(kernel.get_current_task(), Some(TaskId(1)));
}

#[test]
fn on_tick_interrupt_acknowledges_tick_even_when_reschedule_errors() {
    let pool = pool(16384);
    let (mock_ctx_switch, trigger_count) = MockContextSwitch::new();
    let (mock_timer, ack_count) = MockSystemTimer::new(TickAction::RequestReschedule);
    let mut kernel = Kernel::new(mock_ctx_switch, MockCriticalSection, FppScheduler::new(), test_resources(pool), mock_timer);

    let priority = TaskPriority::new(9).unwrap();

    kernel.spawn_task(TaskId(0), priority, 1024, dummy_entry, null_mut()).unwrap();
    assert_eq!(kernel.get_current_task(), Some(TaskId(0)));

    for i in 1..=8u32 {
        kernel.spawn_task(TaskId(i), priority, 1024, dummy_entry, null_mut()).unwrap();
    }

    let result = kernel.on_tick_interrupt();

    assert_eq!(result, Err(KernelError::ReadyQueueFull));
    assert_eq!(ack_count.load(Ordering::SeqCst), 1);
    assert_eq!(trigger_count.load(Ordering::SeqCst), 0);
}

#[test]
fn spawn_task_preempts_current_when_higher_priority() {
    let pool = pool(4096);
    let (mock_ctx_switch, trigger_count) = MockContextSwitch::new();
    let (mock_timer, _ack_count) = MockSystemTimer::new(TickAction::NoAction);
    let mut kernel = Kernel::new(mock_ctx_switch, MockCriticalSection, FppScheduler::new(), test_resources(pool), mock_timer);

    kernel.spawn_task(TaskId(1), TaskPriority::new(20).unwrap(), 1024, dummy_entry, null_mut()).unwrap();
    assert_eq!(kernel.get_current_task(), Some(TaskId(1)));
    assert_eq!(trigger_count.load(Ordering::SeqCst), 0);

    kernel.spawn_task(TaskId(2), TaskPriority::new(5).unwrap(), 1024, dummy_entry, null_mut()).unwrap();

    assert_eq!(kernel.get_current_task(), Some(TaskId(2)));
    assert_eq!(trigger_count.load(Ordering::SeqCst), 0);

    // strict priority beats a cooperative yield; the switch is still requested.
    kernel.yield_now().unwrap();
    assert_eq!(kernel.get_current_task(), Some(TaskId(2)));
    assert_eq!(trigger_count.load(Ordering::SeqCst), 1);
}

#[test]
fn spawn_task_does_not_preempt_when_lower_priority() {
    let pool = pool(4096);
    let (mock_ctx_switch, trigger_count) = MockContextSwitch::new();
    let (mock_timer, _ack_count) = MockSystemTimer::new(TickAction::NoAction);
    let mut kernel = Kernel::new(mock_ctx_switch, MockCriticalSection, FppScheduler::new(), test_resources(pool), mock_timer);

    kernel.spawn_task(TaskId(1), TaskPriority::new(5).unwrap(), 1024, dummy_entry, null_mut()).unwrap();
    kernel.spawn_task(TaskId(2), TaskPriority::new(20).unwrap(), 1024, dummy_entry, null_mut()).unwrap();

    assert_eq!(kernel.get_current_task(), Some(TaskId(1)));
    assert_eq!(trigger_count.load(Ordering::SeqCst), 0);
}

#[test]
fn spawn_task_preemption_actually_requeues_previous_task() {
    let pool = pool(16384);
    let (mock_ctx_switch, _trigger_count) = MockContextSwitch::new();
    let (mock_timer, _ack_count) = MockSystemTimer::new(TickAction::NoAction);
    let mut kernel = Kernel::new(mock_ctx_switch, MockCriticalSection, FppScheduler::new(), test_resources(pool), mock_timer);

    let low_priority = TaskPriority::new(20).unwrap();

    kernel.spawn_task(TaskId(0), low_priority, 1024, dummy_entry, null_mut()).unwrap();

    for i in 1..=8u32 {
        kernel.spawn_task(TaskId(i), low_priority, 1024, dummy_entry, null_mut()).unwrap();
    }

    let result = kernel.spawn_task(TaskId(9), TaskPriority::new(5).unwrap(), 1024, dummy_entry, null_mut());

    assert_eq!(result, Err(KernelError::ReadyQueueFull));
}

#[test]
fn spawn_task_never_touches_yield_context_even_on_preemption() {
    let pool = pool(4096);
    let (mock_ctx_switch, trigger_count) = MockContextSwitch::new();
    let activated_contexts = mock_ctx_switch.activated_contexts.clone();
    let outgoing_contexts = mock_ctx_switch.outgoing_contexts.clone();
    let (mock_timer, _ack_count) = MockSystemTimer::new(TickAction::NoAction);
    let mut kernel = Kernel::new(mock_ctx_switch, MockCriticalSection, FppScheduler::new(), test_resources(pool), mock_timer);

    kernel.spawn_task(TaskId(1), TaskPriority::new(20).unwrap(), 1024, dummy_entry, null_mut()).unwrap();
    kernel.spawn_task(TaskId(2), TaskPriority::new(5).unwrap(), 1024, dummy_entry, null_mut()).unwrap();

    assert_eq!(kernel.get_current_task(), Some(TaskId(2)));
    assert_eq!(activated_contexts.lock().unwrap().len(), 0);
    assert_eq!(outgoing_contexts.lock().unwrap().len(), 0);
    assert_eq!(trigger_count.load(Ordering::SeqCst), 0);
}

#[test]
fn kernel_start_dispatches_into_first_spawned_task() {
    let pool = pool(1024);
    let (mock_ctx_switch, trigger_count) = MockContextSwitch::new();
    let activated_contexts = mock_ctx_switch.activated_contexts.clone();
    let outgoing_contexts = mock_ctx_switch.outgoing_contexts.clone();
    let (mock_timer, _ack_count) = MockSystemTimer::new(TickAction::NoAction);
    let mut kernel = Kernel::new(mock_ctx_switch, MockCriticalSection, MockScheduler, test_resources(pool), mock_timer);

    kernel.spawn_task(TaskId(1), TaskPriority::new(1).unwrap(), 1024, dummy_entry, null_mut()).unwrap();
    assert_eq!(activated_contexts.lock().unwrap().len(), 0);
    assert_eq!(trigger_count.load(Ordering::SeqCst), 0);

    kernel.start().unwrap();

    assert_eq!(*outgoing_contexts.lock().unwrap(), vec![None]);
    assert_eq!(activated_contexts.lock().unwrap().len(), 1);
    assert_eq!(trigger_count.load(Ordering::SeqCst), 1);
}

#[test]
fn kernel_start_is_a_no_op_when_no_task_spawned() {
    let pool = pool(1024);
    let (mock_ctx_switch, trigger_count) = MockContextSwitch::new();
    let activated_contexts = mock_ctx_switch.activated_contexts.clone();
    let outgoing_contexts = mock_ctx_switch.outgoing_contexts.clone();
    let (mock_timer, _ack_count) = MockSystemTimer::new(TickAction::NoAction);
    let mut kernel = Kernel::new(mock_ctx_switch, MockCriticalSection, MockScheduler, test_resources(pool), mock_timer);

    let result = kernel.start();

    assert!(result.is_ok());
    assert_eq!(activated_contexts.lock().unwrap().len(), 0);
    assert_eq!(outgoing_contexts.lock().unwrap().len(), 0);
    assert_eq!(trigger_count.load(Ordering::SeqCst), 0);
}

#[test]
fn on_tick_interrupt_switch_activates_correct_outgoing_and_incoming_context() {
    let pool = pool(4096);
    let (mock_ctx_switch, _trigger_count) = MockContextSwitch::new();
    let activated_contexts = mock_ctx_switch.activated_contexts.clone();
    let outgoing_contexts = mock_ctx_switch.outgoing_contexts.clone();
    let (mock_timer, _ack_count) = MockSystemTimer::new(TickAction::RequestReschedule);
    let mut kernel = Kernel::new(mock_ctx_switch, MockCriticalSection, FppScheduler::new(), test_resources(pool), mock_timer);

    let priority = TaskPriority::new(10).unwrap();
    kernel.spawn_task(TaskId(1), priority, 1024, dummy_entry, null_mut()).unwrap();
    kernel.spawn_task(TaskId(2), priority, 1024, dummy_entry, null_mut()).unwrap();

    assert_eq!(activated_contexts.lock().unwrap().len(), 0);

    kernel.on_tick_interrupt().unwrap();

    let activated = activated_contexts.lock().unwrap().clone();
    let outgoing = outgoing_contexts.lock().unwrap().clone();

    assert_eq!(activated.len(), 1);
    assert_eq!(outgoing.len(), 1);
    assert!(outgoing[0].is_some());
    assert_ne!(outgoing[0], Some(activated[0]));
}
