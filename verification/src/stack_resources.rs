//! The memory the board hands the kernel for task stacks, with the stack
//! guard and the per-task guard slots.
use vstd::prelude::*;
use crate::hal::StackGuard;
use crate::types::StackGuardContext;

verus! {

/// Stack pool (by address and length), stack guard, and one guard slot per task id.
pub struct KernelStackResources<G: StackGuard + Copy> {
    pub pool_base: usize,
    pub pool_len: usize,
    pub stack_guard: G,
    pub stack_guard_slots: Vec<Option<StackGuardContext>>,
}

impl<G: StackGuard + Copy> KernelStackResources<G> {
    /// Bundles the stack pool `pool_base..pool_base + pool_len`, the guard
    /// implementation and the slot storage for the kernel.
    pub fn new(
        pool_base: usize,
        pool_len: usize,
        stack_guard: G,
        stack_guard_slots: Vec<Option<StackGuardContext>>,
    ) -> (r: Self)
        requires
            pool_base + pool_len <= usize::MAX,
        ensures
            r.pool_base == pool_base,
            r.pool_len == pool_len,
            r.stack_guard == stack_guard,
            r.stack_guard_slots == stack_guard_slots,
            r.wf(),
    {
        KernelStackResources { pool_base, pool_len, stack_guard, stack_guard_slots }
    }

    /// The pool lies inside the address space.
    pub open spec fn wf(&self) -> bool {
        self.pool_base + self.pool_len <= usize::MAX
    }
}

} // verus!
