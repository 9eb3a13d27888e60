use lib::arch::{
    initial_head_words, kernel_priorities_shpr3, pendsv_pending_icsr, CortexMCriticalSection, CortexMStackGuard,
    SysTickError, V7mBasicExceptionFrame, V7mContextSwitch, V7mSysTick, V7mTaskContext,
    INITIAL_XPSR, V7M_INITIAL_STACK_HEAD_BYTES,
};
use lib::types::{
    ContextSwitchError, StackGuardConfig, StackGuardContext, StackGuardError, StackGuardMode,
    StackGuardState,
};

fn ctx(top: usize, limit: usize, mode: StackGuardMode) -> StackGuardContext {
    StackGuardContext {
        stack_top: top,
        stack_limit: limit,
        state: StackGuardState { low_mark: 0 },
        config: StackGuardConfig { mode, canary_word: 0xDEADBEEF },
    }
}

#[test]
fn primask_round_trips_interrupt_availability() {
    assert!(CortexMCriticalSection::irqs_available(0));
    assert!(!CortexMCriticalSection::irqs_available(1));
    assert_eq!(CortexMCriticalSection::primask_for(true), 0);
    assert_eq!(CortexMCriticalSection::primask_for(false), 1);
    for available in [true, false] {
        assert_eq!(CortexMCriticalSection::irqs_available(CortexMCriticalSection::primask_for(available)), available);
    }
}

#[test]
fn guard_bounds_reject_null_and_inverted_stacks() {
    assert_eq!(CortexMStackGuard::validate_bounds(&ctx(0x2000, 0, StackGuardMode::Canary)), Err(StackGuardError::InvalidStackBounds));
    assert_eq!(CortexMStackGuard::validate_bounds(&ctx(0, 0x1000, StackGuardMode::Canary)), Err(StackGuardError::InvalidStackBounds));
    assert_eq!(CortexMStackGuard::validate_bounds(&ctx(0x1000, 0x1000, StackGuardMode::Canary)), Err(StackGuardError::InvalidStackBounds));
    assert_eq!(CortexMStackGuard::validate_bounds(&ctx(0x2000, 0x1000, StackGuardMode::Canary)), Ok(()));
    assert_eq!(CortexMStackGuard::canary_address(&ctx(0x2000, 0x1000, StackGuardMode::Canary)), 0x1000);
}

#[test]
fn guard_seed_sets_low_mark_per_mode() {
    let mut c = ctx(0x2000, 0x1000, StackGuardMode::Canary);
    assert_eq!(CortexMStackGuard::seed(&mut c), Ok(StackGuardState { low_mark: 0x1000 }));
    let mut w = ctx(0x2000, 0x1000, StackGuardMode::Watermark);
    assert_eq!(CortexMStackGuard::seed(&mut w), Ok(StackGuardState { low_mark: 0x2000 }));
    assert_eq!(w.state.low_mark, 0x2000);
    let mut bad = ctx(0x1000, 0x2000, StackGuardMode::Watermark);
    assert_eq!(CortexMStackGuard::seed(&mut bad), Err(StackGuardError::InvalidStackBounds));
    assert_eq!(bad.state.low_mark, 0);
}

#[test]
fn guard_check_detects_corruption() {
    let c = ctx(0x2000, 0x1000, StackGuardMode::Canary);
    assert_eq!(CortexMStackGuard::check_with(&c, 0xDEADBEEF), Ok(()));
    assert_eq!(CortexMStackGuard::check_with(&c, 0xDEADBEEE), Err(StackGuardError::GuardCorrupted));
    let mut w = ctx(0x2000, 0x1000, StackGuardMode::Watermark);
    w.state.low_mark = 0x1000;
    assert_eq!(CortexMStackGuard::check_with(&w, 0), Ok(()));
    w.state.low_mark = 0x0fff;
    assert_eq!(CortexMStackGuard::check_with(&w, 0), Err(StackGuardError::GuardCorrupted));
    assert_eq!(CortexMStackGuard::check_with(&ctx(0, 0, StackGuardMode::Canary), 0xDEADBEEF), Err(StackGuardError::InvalidStackBounds));
}

#[test]
fn initial_stack_head_sits_below_aligned_top() {
    assert_eq!(V7mContextSwitch::initial_stack_head(0x2000_1000, 0x2000_0000), Ok(0x2000_1000 - 64));
    assert_eq!(V7M_INITIAL_STACK_HEAD_BYTES, 64);
    assert_eq!(V7mContextSwitch::initial_stack_head(0, 0x2000_0000), Err(ContextSwitchError::NullStackPointer));
    assert_eq!(V7mContextSwitch::initial_stack_head(0x2000_1000, 0), Err(ContextSwitchError::NullStackPointer));
    assert_eq!(V7mContextSwitch::initial_stack_head(0x2000_0000, 0x2000_1000), Err(ContextSwitchError::InvalidStackBounds));
    assert_eq!(V7mContextSwitch::initial_stack_head(0x2000_1004, 0x2000_0000), Err(ContextSwitchError::UnalignedStackTop));
    assert_eq!(V7mContextSwitch::initial_stack_head(0x2000_0038, 0x2000_0000), Err(ContextSwitchError::StackRegionTooSmall));
    assert_eq!(V7mContextSwitch::initial_stack_head(0x2000_0040, 0x2000_0000), Ok(0x2000_0000));
    assert_eq!(V7mContextSwitch::hw_frame_address(0x2000_0000), 0x2000_0020);
    assert_eq!(V7mTaskContext::new(0x2000_0000).sp, 0x2000_0000);
}

#[test]
fn initial_frame_enters_task_in_thumb_state() {
    let frame = V7mBasicExceptionFrame::initial_task_frame(0x2000_0020, 0x0800_0100, 0x1234, 0x0800_0200);
    assert_eq!(frame.r0, 0x1234);
    assert_eq!((frame.r1, frame.r2, frame.r3, frame.r12), (0, 0, 0, 0));
    assert_eq!(frame.pc, 0x0800_0101);
    assert_eq!(frame.lr, 0x0800_0201);
    assert_eq!(frame.xpsr, INITIAL_XPSR);
    assert_eq!(INITIAL_XPSR, 1 << 24);
    let words = initial_head_words(&frame);
    assert_eq!(words.len() * 4, V7M_INITIAL_STACK_HEAD_BYTES);
    assert_eq!(&words[..8], &[0u32; 8]);
    assert_eq!(&words[8..], &[0x1234, 0, 0, 0, 0, 0x0800_0201, 0x0800_0101, 1 << 24]);
}

#[test]
fn systick_register_values() {
    assert_eq!(V7mSysTick::started_csr(0), 0b101);
    assert_eq!(V7mSysTick::started_csr(0b010), 0b111);
    assert_eq!(V7mSysTick::stopped_csr(0b111), 0b110);
    assert_eq!(V7mSysTick::interrupt_enabled_csr(0b001), 0b011);
    assert_eq!(V7mSysTick::interrupt_disabled_csr(0b111), 0b101);
    assert_eq!(V7mSysTick::reload_value(2096), Ok(2096));
    assert_eq!(V7mSysTick::reload_value(0x00FF_FFFF), Ok(0x00FF_FFFF));
    assert_eq!(V7mSysTick::reload_value(0x0100_0000), Err(SysTickError::ReloadOutOfRange));
    assert_eq!(V7mSysTick::next_tick_count(41), 42);
    assert_eq!(V7mSysTick::next_tick_count(u64::MAX), 0);
}

#[test]
fn system_control_block_values() {
    assert_eq!(pendsv_pending_icsr(0), 1 << 28);
    assert_eq!(pendsv_pending_icsr(0x5), (1 << 28) | 0x5);
    assert_eq!(kernel_priorities_shpr3(0), 0xF0F0_0000);
    assert_eq!(kernel_priorities_shpr3(0x1234_ABCD), 0xF0F0_ABCD);
}

#[test]
fn freshly_seeded_canary_passes_its_check() {
    let mut c = ctx(0x2000_1000, 0x2000_0000, StackGuardMode::Canary);
    c.config.canary_word = 0xDEAD_BEEF;
    CortexMStackGuard::seed(&mut c).unwrap();
    assert_eq!(CortexMStackGuard::check_with(&c, 0xDEAD_BEEF), Ok(()));
    assert_eq!(CortexMStackGuard::check_with(&c, 0), Err(StackGuardError::GuardCorrupted));
}
