//! Cortex-M (ARMv7-M) architecture logic: stack-guard decisions, the layout
//! of a new task's initial stack, and the register values the architecture
//! layer writes. The register and memory accesses themselves are done by the
//! code that owns the hardware; everything decided here is plain values.
use vstd::prelude::*;
use crate::types::{ContextSwitchError, StackGuardContext, StackGuardError, StackGuardMode, StackGuardState};

verus! {

/// Stack alignment required by the ARMv7-M procedure call standard.
pub const CORTEX_M_STACK_ALIGNMENT_BYTES: usize = 8;

/// Bytes of the frame the hardware stacks on exception entry (R0-R3, R12, LR, PC, xPSR).
pub const V7M_HW_FRAME_SIZE_BYTES: usize = 32;

/// Bytes of the callee-saved registers (R4-R11) the switch handler stacks.
pub const V7M_CALLEE_FRAME_SIZE_BYTES: usize = 32;

/// Bytes of a new task's initial stack head: callee-saved frame below the hardware frame.
pub const V7M_INITIAL_STACK_HEAD_BYTES: usize = 64;

/// Bit 0 of a branch target marks Thumb code.
pub const THUMB_TARGET_TRACKING_BIT: u32 = 1;

/// xPSR of a new task: thread mode, no stale flags, EPSR.T set (Thumb state).
pub const INITIAL_XPSR: u32 = 0x0100_0000;

/// PRIMASK is 0 exactly when interrupts are not masked.
pub open spec fn irqs_unmasked(primask: u32) -> bool {
    primask == 0
}

/// Marker for the Cortex-M critical section, which masks interrupts with
/// PRIMASK around the operation and restores the previous mask afterwards.
pub struct CortexMCriticalSection;

impl CortexMCriticalSection {
    /// Whether interrupts were available, given the PRIMASK value read on entry.
    pub fn irqs_available(primask: u32) -> (r: bool)
        ensures
            r == irqs_unmasked(primask),
    {
        primask == 0
    }

    /// PRIMASK value that restores the availability `irqs_available`
    /// (PRIMASK 0 unmasks, 1 masks).
    pub fn primask_for(irqs_available: bool) -> (r: u32)
        ensures
            irqs_unmasked(r) == irqs_available,
            r <= 1,
    {
        if irqs_available { 0 } else { 1 }
    }
}

/// Stack bounds a guard can work with: both ends non-null and top above limit.
pub open spec fn guard_bounds_valid(ctx: StackGuardContext) -> bool {
    ctx.stack_limit != 0 && ctx.stack_top != 0 && ctx.stack_top > ctx.stack_limit
}

/// The guard context seeding leaves behind: a canary guard has reached the
/// limit so far, a watermark guard starts at the top.
pub open spec fn seeded(ctx: StackGuardContext) -> StackGuardContext {
    StackGuardContext {
        state: StackGuardState {
            low_mark: match ctx.config.mode {
                StackGuardMode::Canary => ctx.stack_limit,
                StackGuardMode::Watermark => ctx.stack_top,
            },
        },
        ..ctx
    }
}

/// The verdict on a guard context, given the word read at its canary address.
pub open spec fn guard_verdict(ctx: StackGuardContext, canary_read: u32) -> Result<(), StackGuardError> {
    if !guard_bounds_valid(ctx) {
        Err(StackGuardError::InvalidStackBounds)
    } else if match ctx.config.mode {
        StackGuardMode::Canary => canary_read == ctx.config.canary_word,
        StackGuardMode::Watermark => ctx.state.low_mark >= ctx.stack_limit,
    } {
        Ok(())
    } else {
        Err(StackGuardError::GuardCorrupted)
    }
}

/// A freshly seeded guard passes its check as long as the canary word written
/// at seeding is read back unchanged.
pub proof fn lemma_seeded_guard_passes(ctx: StackGuardContext)
    requires
        guard_bounds_valid(ctx),
    ensures
        guard_verdict(seeded(ctx), ctx.config.canary_word) is Ok,
{
}

/// Stack guard for Cortex-M: a canary word at the stack limit, or a watermark.
pub struct CortexMStackGuard;

impl CortexMStackGuard {
    /// Rejects null or inverted stack bounds.
    pub fn validate_bounds(ctx: &StackGuardContext) -> (r: Result<(), StackGuardError>)
        ensures
            r is Ok <==> guard_bounds_valid(*ctx),
            r is Err ==> r == Err::<(), StackGuardError>(StackGuardError::InvalidStackBounds),
    {
        if ctx.stack_limit == 0 || ctx.stack_top == 0 {
            return Err(StackGuardError::InvalidStackBounds);
        }
        if ctx.stack_top <= ctx.stack_limit {
            return Err(StackGuardError::InvalidStackBounds);
        }
        Ok(())
    }

    /// Address of the canary word: the stack limit.
    pub fn canary_address(ctx: &StackGuardContext) -> (r: usize)
        ensures
            r == ctx.stack_limit,
    {
        ctx.stack_limit
    }

    /// Seeds the guard state: a canary guard marks the limit as reached so
    /// far, a watermark guard starts at the top. On success the canary word
    /// still has to be written at `canary_address` for the canary mode.
    pub fn seed(ctx: &mut StackGuardContext) -> (r: Result<StackGuardState, StackGuardError>)
        ensures
            !guard_bounds_valid(*old(ctx)) ==> {
                &&& r == Err::<StackGuardState, StackGuardError>(StackGuardError::InvalidStackBounds)
                &&& *final(ctx) == *old(ctx)
            },
            guard_bounds_valid(*old(ctx)) ==> {
                &&& *final(ctx) == seeded(*old(ctx))
                &&& final(ctx).stack_top == old(ctx).stack_top
                &&& final(ctx).stack_limit == old(ctx).stack_limit
                &&& final(ctx).config == old(ctx).config
                &&& final(ctx).state.low_mark == (match old(ctx).config.mode {
                    StackGuardMode::Canary => old(ctx).stack_limit,
                    StackGuardMode::Watermark => old(ctx).stack_top,
                })
                &&& r == Ok::<StackGuardState, StackGuardError>(final(ctx).state)
            },
    {
        Self::validate_bounds(ctx)?;
        match ctx.config.mode {
            StackGuardMode::Canary => {
                ctx.state.low_mark = ctx.stack_limit;
            },
            StackGuardMode::Watermark => {
                ctx.state.low_mark = ctx.stack_top;
            },
        }
        Ok(ctx.state)
    }

    /// Verdict of a guard check, given the word read at the canary address
    /// (only consulted in canary mode).
    pub fn check_with(ctx: &StackGuardContext, canary_read: u32) -> (r: Result<(), StackGuardError>)
        ensures
            r == guard_verdict(*ctx, canary_read),
            !guard_bounds_valid(*ctx) ==> r == Err::<(), StackGuardError>(StackGuardError::InvalidStackBounds),
            guard_bounds_valid(*ctx) ==> (r is Ok <==> match ctx.config.mode {
                StackGuardMode::Canary => canary_read == ctx.config.canary_word,
                StackGuardMode::Watermark => ctx.state.low_mark >= ctx.stack_limit,
            }),
            guard_bounds_valid(*ctx) && r is Err ==> r == Err::<(), StackGuardError>(StackGuardError::GuardCorrupted),
    {
        Self::validate_bounds(ctx)?;
        match ctx.config.mode {
            StackGuardMode::Canary => {
                if canary_read != ctx.config.canary_word {
                    return Err(StackGuardError::GuardCorrupted);
                }
            },
            StackGuardMode::Watermark => {
                if ctx.state.low_mark < ctx.stack_limit {
                    return Err(StackGuardError::GuardCorrupted);
                }
            },
        }
        Ok(())
    }
}

/// Saved context of a task: its process stack pointer.
#[derive(Clone, Copy, Debug, PartialEq, Eq, Structural)]
pub struct V7mTaskContext {
    pub sp: usize,
}

impl V7mTaskContext {
    /// A context whose saved stack pointer is `sp`.
    pub fn new(sp: usize) -> (r: Self)
        ensures
            r.sp == sp,
    {
        Self { sp }
    }
}

/// Where the initial stack head of a task with stack `stack_limit..stack_top`
/// goes, or why it cannot be placed.
pub open spec fn initial_head(stack_top: usize, stack_limit: usize) -> Result<usize, ContextSwitchError> {
    let a = CORTEX_M_STACK_ALIGNMENT_BYTES as int;
    if stack_top == 0 || stack_limit == 0 {
        Err(ContextSwitchError::NullStackPointer)
    } else if stack_top <= stack_limit {
        Err(ContextSwitchError::InvalidStackBounds)
    } else if stack_top as int % a != 0 {
        Err(ContextSwitchError::UnalignedStackTop)
    } else if stack_top - stack_limit < V7M_INITIAL_STACK_HEAD_BYTES {
        Err(ContextSwitchError::StackRegionTooSmall)
    } else {
        Ok((stack_top - V7M_INITIAL_STACK_HEAD_BYTES) as usize)
    }
}

/// Every non-null, 8-byte-aligned stack with room for the head gets its head
/// 64 bytes below the top, and only a misaligned top is refused as such.
pub proof fn lemma_initial_head_accepts_aligned_stacks(stack_top: usize, stack_limit: usize)
    ensures
        stack_top != 0 && stack_limit != 0 && stack_limit < stack_top
            && stack_top % CORTEX_M_STACK_ALIGNMENT_BYTES == 0
            && stack_top - stack_limit >= V7M_INITIAL_STACK_HEAD_BYTES ==> initial_head(stack_top, stack_limit)
            == Ok::<usize, ContextSwitchError>((stack_top - V7M_INITIAL_STACK_HEAD_BYTES) as usize),
        initial_head(stack_top, stack_limit) == Err::<usize, ContextSwitchError>(ContextSwitchError::UnalignedStackTop)
            ==> stack_top % CORTEX_M_STACK_ALIGNMENT_BYTES != 0,
        initial_head(stack_top, stack_limit) matches Ok(base) ==> base + V7M_INITIAL_STACK_HEAD_BYTES == stack_top,
{
}

/// ARMv7-M context switching through PendSV.
pub struct V7mContextSwitch;

impl V7mContextSwitch {
    /// Base of the initial stack head of a new task: 64 bytes below an
    /// 8-byte-aligned, non-null `stack_top` that lies above `stack_limit`
    /// far enough to hold the head.
    pub fn initial_stack_head(stack_top: usize, stack_limit: usize) -> (r: Result<usize, ContextSwitchError>)
        ensures
            r == initial_head(stack_top, stack_limit),
            r matches Ok(base) ==> {
                &&& stack_limit <= base
                &&& base + V7M_INITIAL_STACK_HEAD_BYTES == stack_top
                &&& base % CORTEX_M_STACK_ALIGNMENT_BYTES == 0
            },
            stack_top != 0 && stack_limit != 0 && stack_limit < stack_top
                && stack_top % CORTEX_M_STACK_ALIGNMENT_BYTES == 0
                && stack_top - stack_limit >= V7M_INITIAL_STACK_HEAD_BYTES ==> r == Ok::<usize, ContextSwitchError>(
                (stack_top - V7M_INITIAL_STACK_HEAD_BYTES) as usize,
            ),
            r == Err::<usize, ContextSwitchError>(ContextSwitchError::UnalignedStackTop)
                ==> stack_top % CORTEX_M_STACK_ALIGNMENT_BYTES != 0,
    {
        if stack_top == 0 || stack_limit == 0 {
            return Err(ContextSwitchError::NullStackPointer);
        }
        if stack_top <= stack_limit {
            return Err(ContextSwitchError::InvalidStackBounds);
        }
        if stack_top % CORTEX_M_STACK_ALIGNMENT_BYTES != 0 {
            return Err(ContextSwitchError::UnalignedStackTop);
        }
        if stack_top - stack_limit < V7M_INITIAL_STACK_HEAD_BYTES {
            return Err(ContextSwitchError::StackRegionTooSmall);
        }
        let head_base = stack_top - V7M_INITIAL_STACK_HEAD_BYTES;
        Ok(head_base)
    }

    /// Address of the hardware frame inside an initial stack head.
    pub fn hw_frame_address(head_base: usize) -> (r: usize)
        requires
            head_base + V7M_CALLEE_FRAME_SIZE_BYTES <= usize::MAX,
        ensures
            r == head_base + V7M_CALLEE_FRAME_SIZE_BYTES,
    {
        head_base + V7M_CALLEE_FRAME_SIZE_BYTES
    }
}

/// The frame the hardware unstacks when a new task is first entered.
#[derive(Clone, Copy, Debug, PartialEq, Eq, Structural)]
pub struct V7mBasicExceptionFrame {
    pub r0: u32,
    pub r1: u32,
    pub r2: u32,
    pub r3: u32,
    pub r12: u32,
    pub lr: u32,
    pub pc: u32,
    pub xpsr: u32,
}

impl V7mBasicExceptionFrame {
    /// Register values of a new task's first frame: R0 carries the argument,
    /// LR returns into `task_exit_lr` and PC starts at `entry_point`, both in
    /// Thumb state; every other register is zero and xPSR has only the Thumb
    /// bit set. The frame base, entry point and exit address are never null.
    pub fn initial_task_frame(frame_base: usize, entry_point: u32, entry_arg: u32, task_exit_lr: u32) -> (r: Self)
        requires
            frame_base != 0,
            entry_point != 0,
            task_exit_lr != 0,
        ensures
            r == (V7mBasicExceptionFrame {
                r0: entry_arg,
                r1: 0,
                r2: 0,
                r3: 0,
                r12: 0,
                lr: task_exit_lr | THUMB_TARGET_TRACKING_BIT,
                pc: entry_point | THUMB_TARGET_TRACKING_BIT,
                xpsr: INITIAL_XPSR,
            }),
    {
        V7mBasicExceptionFrame {
            r0: entry_arg,
            r1: 0,
            r2: 0,
            r3: 0,
            r12: 0,
            lr: task_exit_lr | THUMB_TARGET_TRACKING_BIT,
            pc: entry_point | THUMB_TARGET_TRACKING_BIT,
            xpsr: INITIAL_XPSR,
        }
    }
}

/// The words of a new task's initial stack head, lowest address first: the
/// callee-saved R4-R11 as zeros, then the hardware frame.
pub open spec fn head_image(frame: V7mBasicExceptionFrame) -> Seq<u32> {
    seq![0u32, 0u32, 0u32, 0u32, 0u32, 0u32, 0u32, 0u32,
        frame.r0, frame.r1, frame.r2, frame.r3, frame.r12, frame.lr, frame.pc, frame.xpsr]
}

/// The words to write from the base of a new task's initial stack head
/// upwards, one per 4 bytes: zeroed callee-saved registers, then `frame`.
pub fn initial_head_words(frame: &V7mBasicExceptionFrame) -> (r: Vec<u32>)
    ensures
        r@ == head_image(*frame),
        r@.len() * 4 == V7M_INITIAL_STACK_HEAD_BYTES,
{
    let mut words: Vec<u32> = Vec::new();
    let mut i: usize = 0;
    while i < 8
        invariant
            i <= 8,
            words@.len() == i,
            forall|j: int| 0 <= j < i ==> #[trigger] words@[j] == 0u32,
        decreases 8 - i,
    {
        words.push(0);
        i = i + 1;
    }
    words.push(frame.r0);
    words.push(frame.r1);
    words.push(frame.r2);
    words.push(frame.r3);
    words.push(frame.r12);
    words.push(frame.lr);
    words.push(frame.pc);
    words.push(frame.xpsr);
    assert(words@ =~= head_image(*frame));
    words
}

/// SysTick control: counter enable.
pub const SYST_CSR_ENABLE: u32 = 0x1;
/// SysTick control: raise the SysTick exception on reaching zero.
pub const SYST_CSR_TICKINT: u32 = 0x2;
/// SysTick control: count the processor clock.
pub const SYST_CSR_CLKSOURCE: u32 = 0x4;
/// SysTick reload values are 24 bits wide.
pub const SYST_RVR_MASK: u32 = 0x00FF_FFFF;
/// ICSR: set the PendSV exception pending.
pub const ICSR_PENDSV_SET: u32 = 0x1000_0000;
/// ICSR: clear a pending SysTick exception.
pub const ICSR_PENDSTCLR: u32 = 0x0200_0000;
/// Lowest exception priority with 4 implemented priority bits.
pub const LOWEST_PRIORITY: u32 = 0xF0;

/// Errors of the SysTick timer.
#[derive(Debug, Clone, Copy, PartialEq, Eq, Structural)]
pub enum SysTickError {
    ReloadOutOfRange,
}

/// Handle onto the SysTick peripheral.
#[derive(Clone, Copy)]
pub struct V7mSysTick;

impl V7mSysTick {
    /// Control register value that runs the counter on the processor clock.
    pub fn started_csr(csr: u32) -> (r: u32)
        ensures
            r == csr | SYST_CSR_ENABLE | SYST_CSR_CLKSOURCE,
            r & SYST_CSR_ENABLE != 0,
            r & SYST_CSR_CLKSOURCE != 0,
    {
        let r = csr | SYST_CSR_ENABLE | SYST_CSR_CLKSOURCE;
        assert(r & 1 != 0 && r & 4 != 0) by (bit_vector)
            requires
                r == csr | 1u32 | 4u32,
        ;
        r
    }

    /// Control register value with the counter disabled and every other bit kept.
    pub fn stopped_csr(csr: u32) -> (r: u32)
        ensures
            r == csr & !SYST_CSR_ENABLE,
            r & SYST_CSR_ENABLE == 0,
    {
        let r = csr & !SYST_CSR_ENABLE;
        assert(r & 1 == 0) by (bit_vector)
            requires
                r == csr & !1u32,
        ;
        r
    }

    /// Control register value with the tick interrupt enabled.
    pub fn interrupt_enabled_csr(csr: u32) -> (r: u32)
        ensures
            r == csr | SYST_CSR_TICKINT,
            r & SYST_CSR_TICKINT != 0,
    {
        let r = csr | SYST_CSR_TICKINT;
        assert(r & 2 != 0) by (bit_vector)
            requires
                r == csr | 2u32,
        ;
        r
    }

    /// Control register value with the tick interrupt disabled.
    pub fn interrupt_disabled_csr(csr: u32) -> (r: u32)
        ensures
            r == csr & !SYST_CSR_TICKINT,
            r & SYST_CSR_TICKINT == 0,
    {
        let r = csr & !SYST_CSR_TICKINT;
        assert(r & 2 == 0) by (bit_vector)
            requires
                r == csr & !2u32,
        ;
        r
    }

    /// Reload register value for `ticks`, which must fit in 24 bits.
    pub fn reload_value(ticks: u32) -> (r: Result<u32, SysTickError>)
        ensures
            ticks <= SYST_RVR_MASK ==> r == Ok::<u32, SysTickError>(ticks),
            ticks > SYST_RVR_MASK ==> r == Err::<u32, SysTickError>(SysTickError::ReloadOutOfRange),
    {
        proof {
            assert((ticks & !0x00FF_FFFFu32 == 0) == (ticks <= 0x00FF_FFFFu32)) by (bit_vector);
            assert(ticks <= 0x00FF_FFFFu32 ==> ticks & 0x00FF_FFFFu32 == ticks) by (bit_vector);
        }
        if ticks & !SYST_RVR_MASK != 0 {
            return Err(SysTickError::ReloadOutOfRange);
        }
        Ok(ticks & SYST_RVR_MASK)
    }

    /// The software tick count after one more tick (wrapping at `u64::MAX`).
    pub fn next_tick_count(count: u64) -> (r: u64)
        ensures
            count < u64::MAX ==> r == count + 1,
            count == u64::MAX ==> r == 0,
    {
        count.wrapping_add(1)
    }
}

/// ICSR value that sets PendSV pending and keeps the other bits.
pub fn pendsv_pending_icsr(icsr: u32) -> (r: u32)
    ensures
        r == icsr | ICSR_PENDSV_SET,
        r & ICSR_PENDSV_SET != 0,
{
    let r = icsr | ICSR_PENDSV_SET;
    assert(r & 0x1000_0000 != 0) by (bit_vector)
        requires
            r == icsr | 0x1000_0000u32,
    ;
    r
}

/// SHPR3 value that gives PendSV (bits 16..24) and SysTick (bits 24..32) the
/// lowest priority while keeping bits 0..16.
pub fn kernel_priorities_shpr3(existing: u32) -> (r: u32)
    ensures
        (r >> 16u32) & 0xFF == LOWEST_PRIORITY,
        r >> 24u32 == LOWEST_PRIORITY,
        r & 0xFFFF == existing & 0xFFFF,
{
    let value = (LOWEST_PRIORITY << 16u32) | (LOWEST_PRIORITY << 24u32);
    let mask = (0xFFu32 << 16u32) | (0xFFu32 << 24u32);
    let r = (existing & !mask) | value;
    assert((r >> 16u32) & 0xFF == 0xF0 && r >> 24u32 == 0xF0 && r & 0xFFFF == existing & 0xFFFF) by (bit_vector)
        requires
            r == (existing & !((0xFFu32 << 16u32) | (0xFFu32 << 24u32))) | ((0xF0u32 << 16u32) | (0xF0u32 << 24u32)),
    ;
    r
}

} // verus!
