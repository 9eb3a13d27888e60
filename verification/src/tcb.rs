//! Task control blocks: what the kernel records about each spawned task.
use vstd::prelude::*;
use crate::task_priority::TaskPriority;
use crate::types::{StackBounds, StackGuardContext, TaskId, TaskState};

verus! {

/// Per-task record kept by the kernel.
pub struct TaskControlBlock<Context> {
    pub task_id: TaskId,
    pub stack_bounds: StackBounds,
    pub task_state: TaskState,
    pub task_context: Context,
    pub stack_guard_ctx: StackGuardContext,
    pub task_priority: TaskPriority,
}

/// Read and update access to a task control block.
pub trait CoreTcb<Context> {
    fn get_task_id(&self) -> TaskId;

    fn get_stack_bounds(&self) -> StackBounds;

    fn get_priority(&self) -> TaskPriority;

    fn get_context(&self) -> &Context;

    fn get_context_mut(&mut self) -> &mut Context;

    fn get_state(&self) -> TaskState;

    fn set_state(&mut self, state: TaskState);
}

impl<Context> CoreTcb<Context> for TaskControlBlock<Context> {
    /// The task's identifier.
    fn get_task_id(&self) -> (r: TaskId)
        ensures
            r == self.task_id,
    {
        self.task_id
    }

    /// The task's stack boundaries.
    fn get_stack_bounds(&self) -> (r: StackBounds)
        ensures
            r == self.stack_bounds,
    {
        self.stack_bounds
    }

    /// The task's fixed priority.
    fn get_priority(&self) -> (r: TaskPriority)
        ensures
            r == self.task_priority,
    {
        self.task_priority
    }

    /// The task's saved context.
    fn get_context(&self) -> (r: &Context)
        ensures
            *r == self.task_context,
    {
        &self.task_context
    }

    /// Mutable access to the task's saved context; nothing else can change through it.
    fn get_context_mut(&mut self) -> (r: &mut Context)
        ensures
            *r == old(self).task_context,
            *final(self) == (TaskControlBlock { task_context: *final(r), ..*old(self) }),
    {
        &mut self.task_context
    }

    /// The task's current state.
    fn get_state(&self) -> (r: TaskState)
        ensures
            r == self.task_state,
    {
        self.task_state
    }

    /// Replaces the task's state, leaving everything else as it was.
    fn set_state(&mut self, state: TaskState)
        ensures
            final(self).task_state == state,
            final(self).task_id == old(self).task_id,
            final(self).stack_bounds == old(self).stack_bounds,
            final(self).task_context == old(self).task_context,
            final(self).stack_guard_ctx == old(self).stack_guard_ctx,
            final(self).task_priority == old(self).task_priority,
    {
        self.task_state = state;
    }
}

} // verus!
