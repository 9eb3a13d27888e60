//! Fixed task priorities: a smaller number is a more urgent task.
use vstd::prelude::*;
use crate::types::KernelError;
use core::cmp::Ordering;
use vstd::std_specs::cmp::PartialOrdSpecImpl;

verus! {

/// A fixed priority in `MIN..=MAX`.
#[derive(Clone, Copy, PartialEq, Eq, Ord, Hash, Debug)]
pub struct TaskPriority(u8);

impl TaskPriority {
    pub const MIN: u8 = 0;
    pub const MAX: u8 = 31;
    /// Level of the default (middle) priority.
    pub const DEFAULT_LEVEL: u8 = 15;

    #[verifier::type_invariant]
    pub(crate) closed spec fn in_range(self) -> bool {
        self.0 <= Self::MAX
    }

    /// The priority level as a number.
    pub closed spec fn level(self) -> u8 {
        self.0
    }

    /// A priority is determined by its level, so `new(p.as_u8())` gives back `p`.
    pub proof fn lemma_level_determines(p: TaskPriority, q: TaskPriority)
        requires
            p.level() == q.level(),
        ensures
            p == q,
    {
    }

    /// A priority that keeps its invariant lies within `MIN..=MAX`.
    pub(crate) proof fn lemma_level_in_range(self)
        requires
            self.in_range(),
        ensures
            self.level() <= Self::MAX,
    {
    }

    /// Creates a priority when `level` lies within `MIN..=MAX`.
    pub fn new(level: u8) -> (r: Result<TaskPriority, KernelError>)
        ensures
            level <= Self::MAX ==> (r matches Ok(p) && p.level() == level),
            level > Self::MAX ==> r == Err::<TaskPriority, KernelError>(KernelError::InvalidPriority),
    {
        if level < Self::MIN || level > Self::MAX {
            return Err(KernelError::InvalidPriority);
        }
        Ok(TaskPriority(level))
    }

    /// The priority level as a `u8`.
    pub fn as_u8(self) -> (r: u8)
        ensures
            r == self.level(),
            r <= Self::MAX,
    {
        proof { use_type_invariant(&self); }
        self.0
    }
}

impl Default for TaskPriority {
    /// The middle priority.
    fn default() -> (r: TaskPriority)
        ensures
            r.level() == Self::DEFAULT_LEVEL,
    {
        TaskPriority(Self::DEFAULT_LEVEL)
    }
}

/// Priorities are ordered by level: a smaller level is the more urgent task
/// and compares as less.
impl PartialOrd for TaskPriority {
    fn partial_cmp(&self, other: &Self) -> (r: Option<Ordering>) {
        if self.0 < other.0 {
            Some(Ordering::Less)
        } else if self.0 == other.0 {
            Some(Ordering::Equal)
        } else {
            Some(Ordering::Greater)
        }
    }
}

impl PartialOrdSpecImpl for TaskPriority {
    open spec fn obeys_partial_cmp_spec() -> bool {
        true
    }

    open spec fn partial_cmp_spec(&self, other: &Self) -> Option<Ordering> {
        if self.level() < other.level() {
            Some(Ordering::Less)
        } else if self.level() == other.level() {
            Some(Ordering::Equal)
        } else {
            Some(Ordering::Greater)
        }
    }
}

} // verus!
