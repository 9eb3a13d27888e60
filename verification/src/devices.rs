//! The kernel's hold on its hardware: the context switch and the system
//! timer, reachable only through the methods here, and its stack-guard
//! checks. Each method makes exactly one call and records it, with what it
//! hands over (and, for a guard check, the verdict), in the call record that
//! the kernel's contracts speak of.
use vstd::prelude::*;
use crate::hal::{ContextSwitch, StackGuard, SystemTimer};
use crate::types::{ContextSwitchError, StackGuardContext, StackGuardError, TickAction};

verus! {

/// A call the kernel makes on its hardware, with what it hands over.
pub enum DeviceCall<Context> {
    /// `set_current_task_context`: the context the outgoing task is saved
    /// into (`None`: nothing is saved).
    SaveTo(Option<Context>),
    /// `activate_next_task`: the context restored next.
    Restore(Context),
    /// `trigger_pendsv_switch`: a context switch is requested.
    Trigger,
    /// `on_tick_interrupt`: the timer is asked what the tick means.
    TickQuery,
    /// `acknowledge_tick_interrupt`: the tick interrupt is cleared.
    TickAck,
    /// `start`: periodic ticks are started.
    TimerStart,
    /// A stack guard's `check` of the given context, with the verdict it gave.
    GuardCheck(StackGuardContext, Result<(), StackGuardError>),
}

/// The context switch and the system timer, with the record of every call
/// made on them, oldest first.
pub struct Devices<C: ContextSwitch, T: SystemTimer> {
    ctx_switch: C,
    timer: T,
    calls: Ghost<Seq<DeviceCall<C::TaskContext>>>,
}

impl<C: ContextSwitch, T: SystemTimer> Devices<C, T> {
    /// The context switch.
    pub closed spec fn context_switch(&self) -> C {
        self.ctx_switch
    }

    /// The system timer.
    pub closed spec fn timer(&self) -> T {
        self.timer
    }

    /// Every call made on the hardware so far, oldest first.
    pub closed spec fn calls(&self) -> Seq<DeviceCall<C::TaskContext>> {
        self.calls@
    }

    /// Takes hold of the hardware; no call has been made yet.
    pub fn new(ctx_switch: C, timer: T) -> (r: Self)
        ensures
            r.context_switch() == ctx_switch,
            r.timer() == timer,
            r.calls() == Seq::<DeviceCall<C::TaskContext>>::empty(),
    {
        Devices { ctx_switch, timer, calls: Ghost(Seq::empty()) }
    }

    /// Lays out a new task's initial stack and returns its context; this
    /// prepares memory and switches nothing, so it is not recorded.
    pub fn initialise_task_context(
        &self,
        stack_top: usize,
        stack_limit: usize,
        entry_point: C::TaskEntryPoint,
        entry_arg: C::TaskEntryArg,
    ) -> (r: Result<C::TaskContext, ContextSwitchError>)
        ensures
            r == self.context_switch().initialise_spec(stack_top, stack_limit, entry_point, entry_arg),
    {
        self.ctx_switch.initialise_task_context(stack_top, stack_limit, entry_point, entry_arg)
    }

    /// Points the next switch's save side at `ctx`, which the switch may fill.
    pub fn save_into(&mut self, ctx: &mut C::TaskContext)
        ensures
            final(self).calls() == old(self).calls().push(DeviceCall::SaveTo(Some(*old(ctx)))),
            final(self).context_switch() == old(self).context_switch(),
            final(self).timer() == old(self).timer(),
    {
        proof {
            self.calls@ = self.calls@.push(DeviceCall::SaveTo(Some(*ctx)));
        }
        self.ctx_switch.set_current_task_context(Some(ctx));
    }

    /// Tells the next switch that nothing is to be saved.
    pub fn save_nothing(&mut self)
        ensures
            final(self).calls() == old(self).calls().push(DeviceCall::SaveTo(None)),
            final(self).context_switch() == old(self).context_switch(),
            final(self).timer() == old(self).timer(),
    {
        proof {
            self.calls@ = self.calls@.push(DeviceCall::SaveTo(None));
        }
        self.ctx_switch.set_current_task_context(None);
    }

    /// Points the next switch's restore side at `ctx`.
    pub fn restore(&mut self, ctx: &C::TaskContext)
        ensures
            final(self).calls() == old(self).calls().push(DeviceCall::Restore(*ctx)),
            final(self).context_switch() == old(self).context_switch(),
            final(self).timer() == old(self).timer(),
    {
        proof {
            self.calls@ = self.calls@.push(DeviceCall::Restore(*ctx));
        }
        self.ctx_switch.activate_next_task(ctx);
    }

    /// Requests the deferred switch.
    pub fn request_switch(&mut self)
        ensures
            final(self).calls() == old(self).calls().push(DeviceCall::Trigger),
            final(self).context_switch() == old(self).context_switch(),
            final(self).timer() == old(self).timer(),
    {
        proof {
            self.calls@ = self.calls@.push(DeviceCall::Trigger);
        }
        self.ctx_switch.trigger_pendsv_switch();
    }

    /// Asks the timer what this tick means.
    pub fn query_tick(&mut self) -> (r: Result<TickAction, T::Error>)
        ensures
            r == old(self).timer().tick_spec(),
            final(self).timer().acknowledge_spec() == old(self).timer().acknowledge_spec(),
            final(self).calls() == old(self).calls().push(DeviceCall::TickQuery),
            final(self).context_switch() == old(self).context_switch(),
    {
        proof {
            self.calls@ = self.calls@.push(DeviceCall::TickQuery);
        }
        self.timer.on_tick_interrupt()
    }

    /// Clears the pending tick interrupt.
    pub fn acknowledge_tick(&mut self) -> (r: Result<(), T::Error>)
        ensures
            r == old(self).timer().acknowledge_spec(),
            final(self).calls() == old(self).calls().push(DeviceCall::TickAck),
            final(self).context_switch() == old(self).context_switch(),
    {
        proof {
            self.calls@ = self.calls@.push(DeviceCall::TickAck);
        }
        self.timer.acknowledge_tick_interrupt()
    }

    /// Checks the guard of the stack `ctx` describes with `guard`; the
    /// context checked and the verdict are recorded.
    pub fn check_guard<G: StackGuard>(&mut self, guard: &G, ctx: &mut StackGuardContext) -> (r: Result<
        (),
        StackGuardError,
    >)
        ensures
            *final(ctx) == guard.checked_ctx_spec(*old(ctx)),
            final(self).calls() == old(self).calls().push(DeviceCall::GuardCheck(*old(ctx), r)),
            final(self).context_switch() == old(self).context_switch(),
            final(self).timer() == old(self).timer(),
    {
        let ghost checked = *ctx;
        let r = guard.check(ctx);
        proof {
            self.calls@ = self.calls@.push(DeviceCall::GuardCheck(checked, r));
        }
        r
    }

    /// Starts periodic ticks.
    pub fn start_timer(&mut self) -> (r: Result<(), T::Error>)
        ensures
            r == old(self).timer().start_spec(),
            final(self).calls() == old(self).calls().push(DeviceCall::TimerStart),
            final(self).context_switch() == old(self).context_switch(),
    {
        proof {
            self.calls@ = self.calls@.push(DeviceCall::TimerStart);
        }
        self.timer.start()
    }
}

} // verus!
