//! Shared kernel vocabulary: task identifiers, task states, tick actions,
//! stack-guard descriptors and the error types reported across layers.
use vstd::prelude::*;

verus! {

/// Identifier of a task; it doubles as the index of the task's slot tables.
#[derive(Clone, Copy, Debug, PartialEq, Eq, Structural, Hash)]
pub struct TaskId(pub u32);

/// Errors reported by the kernel.
#[derive(Clone, Copy, Debug, PartialEq, Eq, Structural)]
pub enum KernelError {
    InvalidPriority,
    InvalidConfig,
    InvalidState,
    ReadyQueueFull,
    StackGuard,
    TimerFault,
    Unsupported,
}

/// Lifecycle state of a task.
#[derive(Clone, Copy, Debug, PartialEq, Eq, Structural)]
pub enum TaskState {
    Ready,
    Running,
}

/// What the system timer asks of the kernel on a tick.
#[derive(Clone, Copy, Debug, PartialEq, Eq, Structural)]
pub enum TickAction {
    NoAction,
    RequestReschedule,
}

/// Address range of a task stack: `bottom` is the lowest usable address,
/// `top` one past the highest.
#[derive(Clone, Copy, Debug, PartialEq, Eq, Structural)]
pub struct StackBounds {
    pub bottom: usize,
    pub top: usize,
}

/// How a stack guard watches for overflow.
#[derive(Clone, Copy, Debug, PartialEq, Eq, Structural)]
pub enum StackGuardMode {
    /// A known word at the stack limit that must stay intact.
    Canary,
    /// A low-water mark that must stay at or above the stack limit.
    Watermark,
}

/// Configuration of a stack guard.
#[derive(Clone, Copy, Debug, PartialEq, Eq, Structural)]
pub struct StackGuardConfig {
    pub mode: StackGuardMode,
    pub canary_word: u32,
}

/// Run-time state a stack guard keeps per task.
#[derive(Clone, Copy, Debug, PartialEq, Eq, Structural)]
pub struct StackGuardState {
    pub low_mark: usize,
}

/// Everything a stack guard needs to watch one task stack.
#[derive(Clone, Copy, Debug, PartialEq, Eq, Structural)]
pub struct StackGuardContext {
    pub stack_top: usize,
    pub stack_limit: usize,
    pub state: StackGuardState,
    pub config: StackGuardConfig,
}

/// Errors reported by a stack guard.
#[derive(Clone, Copy, Debug, PartialEq, Eq, Structural)]
pub enum StackGuardError {
    InvalidStackBounds,
    GuardCorrupted,
}

/// Errors reported while preparing a task context.
#[derive(Clone, Copy, Debug, PartialEq, Eq, Structural)]
pub enum ContextSwitchError {
    NullStackPointer,
    InvalidStackBounds,
    UnalignedStackTop,
    StackRegionTooSmall,
    InvalidEntryPoint,
    NullFramePointer,
    NullExitAddress,
}

} // verus!
