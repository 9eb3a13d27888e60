//! Nucleo-L152RE board logic: the board's tick policy, GPIO, PWM and USART
//! register values. Register reads and writes are done by the code that owns
//! the hardware; here are the values it reads back into decisions and the
//! values it writes.
use vstd::prelude::*;
use crate::arch::V7mSysTick;
use crate::types::TickAction;

verus! {

/// System clock after boot raises MSI to its fastest range (range 6).
pub const SYSCLK_HZ: u32 = 4_194_304;
/// APB1 peripheral clock.
pub const PCLK1_HZ: u32 = SYSCLK_HZ;
/// Post-reset MSI clock the system tick is computed from.
pub const RESET_SYSCLK_HZ: u32 = 2_097_152;
/// Period of the system tick in milliseconds.
pub const SYSTICK_PERIOD_MS: u32 = 1;
/// SysTick reload for a 1 kHz tick: `RESET_SYSCLK_HZ * SYSTICK_PERIOD_MS / 1000 - 1`.
pub const SYSTICK_RELOAD_TICKS: u32 = 2096;
/// Upper bound on task ids for the board's static slot tables.
pub const MAX_TASKS: usize = 32;

/// The board's system timer: SysTick, with a reschedule request on every tick.
pub struct NucleoSystemTimer {
    pub systick: V7mSysTick,
}

impl NucleoSystemTimer {
    /// A timer wrapping the SysTick peripheral handle.
    pub fn new() -> (r: Self)
        ensures
            r.systick == V7mSysTick,
    {
        Self { systick: V7mSysTick }
    }

    /// Every tick requests a reschedule: round-robin among equal priorities.
    pub fn tick_action(&self) -> (r: TickAction)
        ensures
            r == TickAction::RequestReschedule,
    {
        TickAction::RequestReschedule
    }
}

/// RCC register bit that powers a peripheral.
#[derive(Clone, Copy)]
pub struct RccEnable {
    pub reg: usize,
    pub bit: u32,
}

impl RccEnable {
    /// Register value with this peripheral's clock enabled and every other bit kept.
    pub fn enabled_value(&self, current: u32) -> (r: u32)
        requires
            self.bit < 32,
        ensures
            r == current | (1u32 << self.bit),
    {
        current | (1u32 << self.bit)
    }
}

/// RCC AHB peripheral clock-enable register.
pub const RCC_AHBENR: usize = 0x4002_381C;

/// Register addresses of one GPIO port.
pub trait GpioPort {
    const MODER: usize;
    const OTYPER: usize;
    const PUPDR: usize;
    const IDR: usize;
    const BSRR: usize;
    const RCC_BIT: u32;
}

pub struct PortA;
pub struct PortB;
pub struct PortC;
pub struct PortD;
pub struct PortE;
pub struct PortH;

impl GpioPort for PortA {
    const MODER: usize = 0x4002_0000;
    const OTYPER: usize = 0x4002_0004;
    const PUPDR: usize = 0x4002_000C;
    const IDR: usize = 0x4002_0010;
    const BSRR: usize = 0x4002_0018;
    const RCC_BIT: u32 = 0;
}

impl GpioPort for PortB {
    const MODER: usize = 0x4002_0400;
    const OTYPER: usize = 0x4002_0404;
    const PUPDR: usize = 0x4002_040C;
    const IDR: usize = 0x4002_0410;
    const BSRR: usize = 0x4002_0418;
    const RCC_BIT: u32 = 1;
}

impl GpioPort for PortC {
    const MODER: usize = 0x4002_0800;
    const OTYPER: usize = 0x4002_0804;
    const PUPDR: usize = 0x4002_080C;
    const IDR: usize = 0x4002_0810;
    const BSRR: usize = 0x4002_0818;
    const RCC_BIT: u32 = 2;
}

impl GpioPort for PortD {
    const MODER: usize = 0x4002_0C00;
    const OTYPER: usize = 0x4002_0C04;
    const PUPDR: usize = 0x4002_0C0C;
    const IDR: usize = 0x4002_0C10;
    const BSRR: usize = 0x4002_0C18;
    const RCC_BIT: u32 = 3;
}

impl GpioPort for PortE {
    const MODER: usize = 0x4002_1000;
    const OTYPER: usize = 0x4002_1004;
    const PUPDR: usize = 0x4002_100C;
    const IDR: usize = 0x4002_1010;
    const BSRR: usize = 0x4002_1018;
    const RCC_BIT: u32 = 4;
}

impl GpioPort for PortH {
    const MODER: usize = 0x4002_1400;
    const OTYPER: usize = 0x4002_1404;
    const PUPDR: usize = 0x4002_140C;
    const IDR: usize = 0x4002_1410;
    const BSRR: usize = 0x4002_1418;
    const RCC_BIT: u32 = 5;
}

/// Logic level of a pin.
#[derive(Clone, Copy, Debug, PartialEq, Eq, Structural)]
pub enum GpioLevel {
    High,
    Low,
}

/// Internal resistor of an input pin.
#[derive(Clone, Copy, Debug, PartialEq, Eq, Structural)]
pub enum PullState {
    HighZ,
    PullDown,
    PullUp,
}

/// Driver type of an output pin.
#[derive(Clone, Copy, Debug, PartialEq, Eq, Structural)]
pub enum OutputStyle {
    PushPull,
    OpenDrain,
}

/// GPIO mode field value: input.
pub const MODER_INPUT: u32 = 0;
/// GPIO mode field value: general purpose output.
pub const MODER_OUTPUT: u32 = 1;
/// GPIO mode field value: alternate function.
pub const MODER_ALTERNATE: u32 = 2;
/// GPIO pull field value: no pull resistor.
pub const PUPDR_NONE: u32 = 0;
/// GPIO pull field value: pull-up.
pub const PUPDR_UP: u32 = 1;
/// GPIO pull field value: pull-down.
pub const PUPDR_DOWN: u32 = 2;

/// Value of the 2-bit field of pin `pin` in a per-port register.
pub open spec fn field_of(reg: u32, pin: u32) -> u32 {
    (reg >> (pin * 2)) & 3
}

/// `current` with the 2-bit field of pin `pin_index` replaced by `value`;
/// the fields of every other pin are kept.
pub fn with_pin_field(current: u32, pin_index: u8, value: u32) -> (r: u32)
    requires
        pin_index < 16,
        value <= 3,
    ensures
        field_of(r, pin_index as u32) == value,
        r & !(3u32 << (pin_index as u32 * 2)) == current & !(3u32 << (pin_index as u32 * 2)),
{
    let field: u32 = (pin_index as u32) * 2;
    let r = (current & !(3u32 << field)) | (value << field);
    assert(((r >> field) & 3) == value && r & !(3u32 << field) == current & !(3u32 << field)) by (bit_vector)
        requires
            field <= 30,
            value <= 3,
            r == (current & !(3u32 << field)) | (value << field),
    ;
    r
}

/// Mode register value that makes pin `pin_index` an input.
pub fn input_moder(current: u32, pin_index: u8) -> (r: u32)
    requires
        pin_index < 16,
    ensures
        field_of(r, pin_index as u32) == MODER_INPUT,
        r & !(3u32 << (pin_index as u32 * 2)) == current & !(3u32 << (pin_index as u32 * 2)),
{
    with_pin_field(current, pin_index, MODER_INPUT)
}

/// Mode register value that makes pin `pin_index` an output.
pub fn output_moder(current: u32, pin_index: u8) -> (r: u32)
    requires
        pin_index < 16,
    ensures
        field_of(r, pin_index as u32) == MODER_OUTPUT,
        r & !(3u32 << (pin_index as u32 * 2)) == current & !(3u32 << (pin_index as u32 * 2)),
{
    with_pin_field(current, pin_index, MODER_OUTPUT)
}

/// Mode register value that hands pin `pin_index` to an alternate function.
pub fn alternate_moder(current: u32, pin_index: u8) -> (r: u32)
    requires
        pin_index < 16,
    ensures
        field_of(r, pin_index as u32) == MODER_ALTERNATE,
        r & !(3u32 << (pin_index as u32 * 2)) == current & !(3u32 << (pin_index as u32 * 2)),
{
    with_pin_field(current, pin_index, MODER_ALTERNATE)
}

/// Value of the alternate-function register (low register for pins 0..8,
/// high register for pins 8..16) that routes pin `pin_index` to function `af`.
pub fn alternate_afr(current: u32, pin_index: u8, af: u8) -> (r: u32)
    requires
        pin_index < 16,
        af < 16,
    ensures
        (r >> ((pin_index as u32 % 8) * 4)) & 0xF == af,
        r & !(0xFu32 << ((pin_index as u32 % 8) * 4)) == current & !(0xFu32 << ((pin_index as u32 % 8) * 4)),
{
    let shift: u32 = ((pin_index as u32) % 8) * 4;
    let value = af as u32;
    let r = (current & !(0xFu32 << shift)) | (value << shift);
    assert(((r >> shift) & 0xF) == value && r & !(0xFu32 << shift) == current & !(0xFu32 << shift)) by (bit_vector)
        requires
            shift <= 28,
            value < 16,
            r == (current & !(0xFu32 << shift)) | (value << shift),
    ;
    r
}

/// Pull field value of a pull state.
pub open spec fn pull_field(pull: PullState) -> u32 {
    match pull {
        PullState::HighZ => PUPDR_NONE,
        PullState::PullDown => PUPDR_DOWN,
        PullState::PullUp => PUPDR_UP,
    }
}

/// Pull register value that gives pin `pin_index` the resistor `pull`.
pub fn pull_pupdr(current: u32, pin_index: u8, pull: PullState) -> (r: u32)
    requires
        pin_index < 16,
    ensures
        field_of(r, pin_index as u32) == pull_field(pull),
        r & !(3u32 << (pin_index as u32 * 2)) == current & !(3u32 << (pin_index as u32 * 2)),
{
    let value = match pull {
        PullState::HighZ => PUPDR_NONE,
        PullState::PullDown => PUPDR_DOWN,
        PullState::PullUp => PUPDR_UP,
    };
    with_pin_field(current, pin_index, value)
}

/// Output-type register value that gives pin `pin_index` the driver `style`
/// (bit set for open-drain, clear for push-pull) and keeps the other pins.
pub fn style_otyper(current: u32, pin_index: u8, style: OutputStyle) -> (r: u32)
    requires
        pin_index < 16,
    ensures
        ((r >> (pin_index as u32)) & 1 == 1) == (style == OutputStyle::OpenDrain),
        r & !(1u32 << (pin_index as u32)) == current & !(1u32 << (pin_index as u32)),
{
    let bit = pin_index as u32;
    match style {
        OutputStyle::PushPull => {
            let r = current & !(1u32 << bit);
            assert((r >> bit) & 1 != 1 && r & !(1u32 << bit) == current & !(1u32 << bit)) by (bit_vector)
                requires
                    bit < 16,
                    r == current & !(1u32 << bit),
            ;
            r
        },
        OutputStyle::OpenDrain => {
            let r = current | (1u32 << bit);
            assert((r >> bit) & 1 == 1 && r & !(1u32 << bit) == current & !(1u32 << bit)) by (bit_vector)
                requires
                    bit < 16,
                    r == current | (1u32 << bit),
            ;
            r
        },
    }
}

/// Bit-set/reset register word that drives pin `pin_index` to `level`: the
/// low half sets, the high half resets.
pub fn level_bsrr(pin_index: u8, level: GpioLevel) -> (r: u32)
    requires
        pin_index < 16,
    ensures
        level == GpioLevel::High ==> r == 1u32 << (pin_index as u32),
        level == GpioLevel::Low ==> r == 1u32 << (pin_index as u32 + 16),
{
    let bit = pin_index as u32;
    match level {
        GpioLevel::High => 1u32 << bit,
        GpioLevel::Low => 1u32 << (bit + 16),
    }
}

/// Level of pin `pin_index` in an input data register value.
pub fn input_level(idr: u32, pin_index: u8) -> (r: GpioLevel)
    requires
        pin_index < 16,
    ensures
        r == (if (idr >> (pin_index as u32)) & 1 == 1 { GpioLevel::High } else { GpioLevel::Low }),
{
    if (idr >> (pin_index as u32)) & 1 == 1 {
        GpioLevel::High
    } else {
        GpioLevel::Low
    }
}

/// Register offsets common to the general-purpose timers.
pub const TIM_OFF_CR1: usize = 0x00;
pub const TIM_OFF_EGR: usize = 0x14;
pub const TIM_OFF_CCMR1: usize = 0x18;
pub const TIM_OFF_CCER: usize = 0x20;
pub const TIM_OFF_PSC: usize = 0x28;
pub const TIM_OFF_ARR: usize = 0x2C;
pub const TIM_OFF_CCR1: usize = 0x34;
pub const TIM_OFF_CCR2: usize = 0x38;
/// Capture/compare enable bit of channel 1.
pub const CCER_CC1E: u32 = 0x1;
/// Capture/compare enable bit of channel 2.
pub const CCER_CC2E: u32 = 0x10;

/// Register block and APB1 clock bit of one general-purpose timer.
pub trait PwmTimer {
    const BASE: usize;
    const RCC_BIT: u32;
}

pub struct Tim2;
pub struct Tim3;

impl PwmTimer for Tim2 {
    const BASE: usize = 0x4000_0000;
    const RCC_BIT: u32 = 0;
}

impl PwmTimer for Tim3 {
    const BASE: usize = 0x4000_0400;
    const RCC_BIT: u32 = 1;
}

/// Requested PWM frequency.
#[derive(Clone, Copy, Debug, PartialEq, Eq, Structural)]
pub struct PwmConfig {
    pub freq_hz: u32,
}

/// Timer ticks in one PWM period of frequency `freq_hz`.
pub open spec fn pwm_period_ticks(freq_hz: u32) -> int {
    PCLK1_HZ as int / freq_hz as int
}

/// Prescaler of a PWM period: the smallest that keeps the reload in 16 bits.
pub open spec fn pwm_prescaler(freq_hz: u32) -> int {
    let ticks = pwm_period_ticks(freq_hz);
    (if ticks > 0 { ticks - 1 } else { 0 }) / 65_536
}

/// Auto-reload value of a PWM period.
pub open spec fn pwm_reload(freq_hz: u32) -> int {
    let q = pwm_period_ticks(freq_hz) / (pwm_prescaler(freq_hz) + 1);
    if q > 0 { q - 1 } else { 0 }
}

/// The programmed period matches the requested frequency: with prescaler
/// `p` and reload `r`, one PWM period lasts `(p + 1) * (r + 1)` clock ticks,
/// which is at most the ideal `PCLK1_HZ / freq_hz` ticks and falls short of
/// it by less than one prescaled tick.
pub proof fn lemma_pwm_period(freq_hz: u32)
    requires
        0 < freq_hz <= PCLK1_HZ,
    ensures
        ({
            let t = pwm_period_ticks(freq_hz);
            let p = pwm_prescaler(freq_hz);
            let r = pwm_reload(freq_hz);
            &&& (p + 1) * (r + 1) <= t
            &&& t < (p + 1) * (r + 2)
            &&& 0 <= r <= 0xFFFF
        }),
{
    let t = pwm_period_ticks(freq_hz);
    let p = pwm_prescaler(freq_hz);
    assert(t >= 1) by (nonlinear_arith)
        requires
            t == PCLK1_HZ as int / freq_hz as int,
            0 < freq_hz <= PCLK1_HZ,
    ;
    assert(p == (t - 1) / 65_536);
    assert(0 <= p && p + 1 <= t) by (nonlinear_arith)
        requires
            p == (t - 1) / 65_536,
            t >= 1,
    ;
    let q = t / (p + 1);
    assert(q >= 1 && (p + 1) * q <= t && t < (p + 1) * (q + 1)) by (nonlinear_arith)
        requires
            q == t / (p + 1),
            p + 1 <= t,
            p >= 0,
    ;
    assert(t <= 65_536 * (p + 1)) by (nonlinear_arith)
        requires
            p == (t - 1) / 65_536,
            t >= 1,
    ;
    assert(q <= 65_536) by (nonlinear_arith)
        requires
            q == t / (p + 1),
            t <= 65_536 * (p + 1),
            p >= 0,
    ;
    assert(pwm_reload(freq_hz) == q - 1);
}

/// Prescaler and auto-reload that make the timer's period `1 / freq_hz`
/// (as closely as the clock allows); the reload always fits the 16-bit register.
pub fn pwm_timing(config: PwmConfig) -> (r: (u32, u32))
    requires
        config.freq_hz > 0,
    ensures
        r.0 == pwm_prescaler(config.freq_hz),
        r.1 == pwm_reload(config.freq_hz),
        r.1 <= 0xFFFF,
{
    let ticks = PCLK1_HZ / config.freq_hz;
    let psc = ticks.saturating_sub(1) / 65_536;
    let arr = (ticks / (psc + 1)).saturating_sub(1);
    proof {
        let t = ticks as int;
        let p = psc as int;
        assert(t <= 65_536 * (p + 1)) by (nonlinear_arith)
            requires
                p == (if t > 0 { t - 1 } else { 0 }) / 65_536,
                t >= 0,
        ;
        assert(t / (p + 1) <= 65_536) by (nonlinear_arith)
            requires
                t <= 65_536 * (p + 1),
                p >= 0,
                t >= 0,
        ;
    }
    (psc, arr)
}

/// RCC APB1 peripheral clock-enable register.
pub const RCC_APB1ENR: usize = 0x4002_3824;
/// TIM control 1: counter enable.
pub const TIM_CR1_CEN: u32 = 0x1;
/// TIM control 1: auto-reload preload enable.
pub const TIM_CR1_ARPE: u32 = 0x80;
/// TIM event generation: update (latches PSC, ARR and CCMR preloads).
pub const TIM_EGR_UG: u32 = 0x1;
/// TIM CCMR1: channels 1 and 2 in PWM mode 1 (OCxM = 110) with preload (OCxPE).
pub const TIM_CCMR1_PWM1_BOTH: u32 = 0x6868;

/// The register writes that bring a timer up for PWM, in the order they are
/// made: clock, prescaler, reload, channel modes, preload with the counter
/// stopped, update event, then preload with the counter running.
pub struct PwmSetup {
    pub clock: RccEnable,
    pub psc: u32,
    pub arr: u32,
    pub ccmr1: u32,
    pub cr1_preload: u32,
    pub egr: u32,
    pub cr1_run: u32,
}

/// Register values for a timer with APB1 clock bit `rcc_bit` running PWM at
/// `config.freq_hz`, both channels in PWM mode 1 and idle.
pub fn pwm_setup(config: PwmConfig, rcc_bit: u32) -> (r: PwmSetup)
    requires
        config.freq_hz > 0,
    ensures
        r.clock == (RccEnable { reg: RCC_APB1ENR, bit: rcc_bit }),
        r.psc == pwm_prescaler(config.freq_hz),
        r.arr == pwm_reload(config.freq_hz),
        r.arr <= 0xFFFF,
        r.ccmr1 == TIM_CCMR1_PWM1_BOTH,
        r.cr1_preload == TIM_CR1_ARPE,
        r.egr == TIM_EGR_UG,
        r.cr1_run == TIM_CR1_ARPE | TIM_CR1_CEN,
{
    let (psc, arr) = pwm_timing(config);
    PwmSetup {
        clock: RccEnable { reg: RCC_APB1ENR, bit: rcc_bit },
        psc,
        arr,
        ccmr1: TIM_CCMR1_PWM1_BOTH,
        cr1_preload: TIM_CR1_ARPE,
        egr: TIM_EGR_UG,
        cr1_run: TIM_CR1_ARPE | TIM_CR1_CEN,
    }
}

/// Compare value of duty `duty` (where `u16::MAX` stands for the whole
/// period) for a timer with auto-reload `arr`.
pub fn duty_compare(duty: u16, arr: u32) -> (r: u32)
    requires
        arr < u32::MAX,
        duty * (arr + 1) <= u32::MAX,
    ensures
        r == (duty as int * (arr as int + 1)) / 65_536,
{
    let period = arr + 1;
    (duty as u32 * period) / 65_536
}

/// Compare register value that enables the channel with mask `mask`.
pub fn ccer_enabled(ccer: u32, mask: u32) -> (r: u32)
    ensures
        r == ccer | mask,
{
    ccer | mask
}

/// Compare register value that disables the channel with mask `mask`.
pub fn ccer_disabled(ccer: u32, mask: u32) -> (r: u32)
    ensures
        r == ccer & !mask,
{
    ccer & !mask
}

/// One compare channel of a running timer: its compare register and enable bit.
pub struct Channel<TIM: PwmTimer> {
    pub ccr: usize,
    pub ccer_mask: u32,
    pub _marker: core::marker::PhantomData<TIM>,
}

impl<TIM: PwmTimer> Channel<TIM> {
    /// A channel with compare register `ccr` and enable mask `ccer_mask`.
    pub fn new(ccr: usize, ccer_mask: u32) -> (r: Self)
        ensures
            r.ccr == ccr,
            r.ccer_mask == ccer_mask,
    {
        Self { ccr, ccer_mask, _marker: core::marker::PhantomData }
    }
}

/// USART parity setting.
#[derive(Clone, Copy, Debug, PartialEq, Eq, Structural)]
pub enum Parity {
    NoParity,
    Even,
    Odd,
}

/// USART stop bits.
#[derive(Clone, Copy, Debug, PartialEq, Eq, Structural)]
pub enum StopBits {
    One,
    Two,
}

/// USART line settings.
#[derive(Clone, Copy, Debug, PartialEq, Eq, Structural)]
pub struct UartConfig {
    pub baud: u32,
    pub parity: Parity,
    pub stop: StopBits,
}

/// Receive faults.
#[derive(Clone, Copy, Debug, PartialEq, Eq, Structural)]
pub enum UartError {
    Overrun,
    Framing,
    Parity,
}

/// USART status: parity error.
pub const SR_PE: u32 = 0x1;
/// USART status: framing error.
pub const SR_FE: u32 = 0x2;
/// USART status: overrun.
pub const SR_ORE: u32 = 0x8;
/// USART status: received data ready.
pub const SR_RXNE: u32 = 0x20;
/// USART status: transmission complete.
pub const SR_TC: u32 = 0x40;
/// USART status: transmit data register empty.
pub const SR_TXE: u32 = 0x80;
/// USART control 1: receiver enable.
pub const CR1_RE: u32 = 0x4;
/// USART control 1: transmitter enable.
pub const CR1_TE: u32 = 0x8;
/// USART control 1: odd parity.
pub const CR1_PS: u32 = 0x200;
/// USART control 1: parity control enable.
pub const CR1_PCE: u32 = 0x400;
/// USART control 1: 9-bit words (8 data bits plus parity).
pub const CR1_M: u32 = 0x1000;
/// USART control 1: USART enable.
pub const CR1_UE: u32 = 0x2000;
/// USART control 2: two stop bits.
pub const CR2_STOP_2BIT: u32 = 0x2000;

/// Baud-rate register value: the peripheral clock over the baud rate, rounded to nearest.
pub fn brr_value(baud: u32) -> (r: u32)
    requires
        baud > 0,
    ensures
        r == (PCLK1_HZ as int + baud as int / 2) / baud as int,
{
    (PCLK1_HZ + baud / 2) / baud
}

/// APB1 clock-enable bit of USART2.
pub const USART2_RCC_BIT: u32 = 17;

/// The register writes that bring USART2 up, in the order they are made:
/// clock, baud rate, control 2, then control 1 (which enables the USART).
pub struct UartSetup {
    pub clock: RccEnable,
    pub brr: u32,
    pub cr2: u32,
    pub cr1: u32,
}

/// Register values for USART2 with the line settings `config`.
pub fn uart_setup(config: UartConfig) -> (r: UartSetup)
    requires
        config.baud > 0,
    ensures
        r.clock == (RccEnable { reg: RCC_APB1ENR, bit: USART2_RCC_BIT }),
        r.brr == (PCLK1_HZ as int + config.baud as int / 2) / config.baud as int,
        r.cr2 == match config.stop {
            StopBits::One => 0,
            StopBits::Two => CR2_STOP_2BIT,
        },
        r.cr1 == match config.parity {
            Parity::NoParity => CR1_UE | CR1_TE | CR1_RE,
            Parity::Even => CR1_UE | CR1_TE | CR1_RE | CR1_PCE | CR1_M,
            Parity::Odd => CR1_UE | CR1_TE | CR1_RE | CR1_PCE | CR1_PS | CR1_M,
        },
{
    UartSetup {
        clock: RccEnable { reg: RCC_APB1ENR, bit: USART2_RCC_BIT },
        brr: brr_value(config.baud),
        cr2: cr2_value(config.stop),
        cr1: cr1_value(config.parity),
    }
}

/// Control register 1: enabled with receiver and transmitter; parity widens
/// the word so that 8 data bits remain.
pub fn cr1_value(parity: Parity) -> (r: u32)
    ensures
        r == match parity {
            Parity::NoParity => CR1_UE | CR1_TE | CR1_RE,
            Parity::Even => CR1_UE | CR1_TE | CR1_RE | CR1_PCE | CR1_M,
            Parity::Odd => CR1_UE | CR1_TE | CR1_RE | CR1_PCE | CR1_PS | CR1_M,
        },
{
    let base = CR1_UE | CR1_TE | CR1_RE;
    match parity {
        Parity::NoParity => base,
        Parity::Even => base | CR1_PCE | CR1_M,
        Parity::Odd => base | CR1_PCE | CR1_PS | CR1_M,
    }
}

/// Control register 2: the stop-bit field.
pub fn cr2_value(stop: StopBits) -> (r: u32)
    ensures
        r == match stop {
            StopBits::One => 0,
            StopBits::Two => CR2_STOP_2BIT,
        },
{
    match stop {
        StopBits::One => 0,
        StopBits::Two => CR2_STOP_2BIT,
    }
}

/// What a status register value means for a receive: a latched fault
/// (overrun first, then framing, then parity), or whether a byte is waiting.
pub fn receive_status(sr: u32) -> (r: Result<bool, UartError>)
    ensures
        sr & SR_ORE != 0 ==> r == Err::<bool, UartError>(UartError::Overrun),
        sr & SR_ORE == 0 && sr & SR_FE != 0 ==> r == Err::<bool, UartError>(UartError::Framing),
        sr & SR_ORE == 0 && sr & SR_FE == 0 && sr & SR_PE != 0 ==> r == Err::<bool, UartError>(UartError::Parity),
        sr & SR_ORE == 0 && sr & SR_FE == 0 && sr & SR_PE == 0 ==> r == Ok::<bool, UartError>(sr & SR_RXNE != 0),
{
    if sr & SR_ORE != 0 {
        return Err(UartError::Overrun);
    }
    if sr & SR_FE != 0 {
        return Err(UartError::Framing);
    }
    if sr & SR_PE != 0 {
        return Err(UartError::Parity);
    }
    Ok(sr & SR_RXNE != 0)
}

/// Whether the transmit data register can take a byte.
pub fn tx_ready(sr: u32) -> (r: bool)
    ensures
        r == (sr & SR_TXE != 0),
{
    sr & SR_TXE != 0
}

/// Whether the last byte has fully left the transmitter.
pub fn tx_complete(sr: u32) -> (r: bool)
    ensures
        r == (sr & SR_TC != 0),
{
    sr & SR_TC != 0
}

/// MSI range field of RCC_ICSR (bits 13..16).
pub const ICSCR_MSIRANGE_MASK: u32 = 0xE000;
/// MSI range 6 (4.194304 MHz), the fastest of the seven ranges.
pub const MSIRANGE_6: u32 = 0xC000;

/// RCC_ICSCR value that raises MSI to range 6 and keeps every other bit.
pub fn msi_max_range_icscr(icscr: u32) -> (r: u32)
    ensures
        r & ICSCR_MSIRANGE_MASK == MSIRANGE_6,
        r & !ICSCR_MSIRANGE_MASK == icscr & !ICSCR_MSIRANGE_MASK,
{
    let r = (icscr & !ICSCR_MSIRANGE_MASK) | MSIRANGE_6;
    assert(r & 0xE000 == 0xC000 && r & !0xE000u32 == icscr & !0xE000u32) by (bit_vector)
        requires
            r == (icscr & !0xE000u32) | 0xC000u32,
    ;
    r
}

} // verus!
