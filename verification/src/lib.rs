use vstd::prelude::*;

pub mod types;
pub mod task_priority;
pub mod scheduler;
pub mod hal;
pub mod devices;
pub mod tcb;
pub mod stack_resources;
pub mod kernel;
pub mod arch;
pub mod bsp;
pub mod entry_attr;

verus! {
} // verus!
