//! The hardware-facing contracts the kernel is generic over. Architecture and
//! board layers implement them; the kernel only orchestrates.
use vstd::prelude::*;
use crate::types::{ContextSwitchError, StackGuardContext, StackGuardError, StackGuardState, TickAction};

verus! {

/// Saving, preparing and switching task contexts.
pub trait ContextSwitch {
    /// Alignment every task stack must have, in bytes.
    const STACK_ALIGNMENT_BYTES: usize;
    /// Architecture-specific saved state of a task.
    type TaskContext;
    /// Code a new task starts running.
    type TaskEntryPoint;
    /// Argument handed to a new task's entry point.
    type TaskEntryArg;

    /// The context (or the refusal) `initialise_task_context` produces for
    /// these arguments.
    spec fn initialise_spec(
        &self,
        stack_top: usize,
        stack_limit: usize,
        entry_point: Self::TaskEntryPoint,
        entry_arg: Self::TaskEntryArg,
    ) -> Result<Self::TaskContext, ContextSwitchError>;

    /// Lays out the initial frame of a task whose stack spans
    /// `stack_limit..stack_top` and returns its context.
    fn initialise_task_context(
        &self,
        stack_top: usize,
        stack_limit: usize,
        entry_point: Self::TaskEntryPoint,
        entry_arg: Self::TaskEntryArg,
    ) -> (r: Result<Self::TaskContext, ContextSwitchError>)
        ensures
            r == self.initialise_spec(stack_top, stack_limit, entry_point, entry_arg),
    ;

    /// Requests the deferred switch to the activated task.
    fn trigger_pendsv_switch(&self);

    /// Points the next switch's restore side at `ctx`.
    fn activate_next_task(&self, ctx: &Self::TaskContext);

    /// Points the next switch's save side at the outgoing task's context;
    /// `None` skips the save.
    fn set_current_task_context(&self, ctx: Option<&mut Self::TaskContext>);
}

/// Running an operation with interrupts masked.
pub trait CriticalSection {
    /// Runs `operation` once on `target` inside the critical section and
    /// returns its result.
    fn with_execute<T, Res, Op: FnOnce(&mut T) -> Res>(&self, target: &mut T, operation: Op) -> (r: Res)
        requires
            forall|t: &mut T| *t == *old(target) ==> operation.requires((t,)),
        ensures
            exists|t: &mut T|
                *t == *old(target) && *final(t) == *final(target) && #[trigger] operation.ensures((t,), r),
    ;
}

/// Guarding task stacks against overflow.
pub trait StackGuard {
    /// The outcome `initialise` reports for a guard context.
    spec fn initialise_spec(&self, ctx: StackGuardContext) -> Result<StackGuardState, StackGuardError>;

    /// The guard context `initialise` leaves behind.
    spec fn initialised_ctx_spec(&self, ctx: StackGuardContext) -> StackGuardContext;

    /// Seeds the guard (canary or watermark) for the stack `ctx` describes.
    fn initialise(&self, ctx: &mut StackGuardContext) -> (r: Result<StackGuardState, StackGuardError>)
        ensures
            r == self.initialise_spec(*old(ctx)),
            *final(ctx) == self.initialised_ctx_spec(*old(ctx)),
    ;

    /// The guard context `check` leaves behind.
    spec fn checked_ctx_spec(&self, ctx: StackGuardContext) -> StackGuardContext;

    /// Verifies the guard of the stack `ctx` describes. The verdict depends on
    /// the memory of the guarded stack and is therefore not named; what
    /// becomes of `ctx` is.
    fn check(&self, ctx: &mut StackGuardContext) -> (r: Result<(), StackGuardError>)
        ensures
            *final(ctx) == self.checked_ctx_spec(*old(ctx)),
    ;
}

/// The periodic tick source of the kernel.
pub trait SystemTimer {
    type Error;

    /// Configures the reload value without starting the timer.
    fn initialise(&mut self, reload_ticks: u32) -> Result<(), Self::Error>;

    /// Whether `start` succeeds.
    spec fn start_spec(&self) -> Result<(), Self::Error>;

    /// What `on_tick_interrupt` reports.
    spec fn tick_spec(&self) -> Result<TickAction, Self::Error>;

    /// Starts periodic ticks.
    fn start(&mut self) -> (r: Result<(), Self::Error>)
        ensures
            r == old(self).start_spec(),
    ;

    /// Stops periodic ticks.
    fn stop(&mut self) -> Result<(), Self::Error>;

    /// What `acknowledge_tick_interrupt` reports.
    spec fn acknowledge_spec(&self) -> Result<(), Self::Error>;

    /// Clears the pending tick interrupt.
    fn acknowledge_tick_interrupt(&mut self) -> (r: Result<(), Self::Error>)
        ensures
            r == old(self).acknowledge_spec(),
    ;

    /// Decides what the kernel should do on this tick; deciding does not
    /// change whether the acknowledgement succeeds.
    fn on_tick_interrupt(&mut self) -> (r: Result<TickAction, Self::Error>)
        ensures
            r == old(self).tick_spec(),
            final(self).acknowledge_spec() == old(self).acknowledge_spec(),
    ;
}

} // verus!
