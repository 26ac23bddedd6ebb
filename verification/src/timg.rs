//! # Timer Group (TIMG)
//!
//! ## Overview
//!
//! The Timer Group (TIMG) peripherals contain one or more general-purpose
//! timers, plus one or more watchdog timers.
//!
//! The general-purpose timers are based on a 16-bit pre-scaler and a 54-bit
//! auto-reload-capable up-down counter.
//!
//! The drivers work on the registers of a timer group as plain values: what
//! they write is found in them afterwards, what the group reports is read
//! from them.

use crate::interrupt::{
    bind_and_enable, handler_steps, set_interrupt_handler, Cpu, HandlerStep, Interrupt,
};
use core::marker::PhantomData;
use vstd::prelude::*;

verus! {

/// Timer errors.
#[derive(Debug, Clone, Copy, PartialEq, Eq, Structural)]
pub enum Error {
    /// The provided timeout is too large.
    InvalidTimeout,
}

/// The configuration register of a timer.
#[derive(Debug, Clone, Copy, PartialEq, Eq, Structural)]
pub struct TimerConfig {
    /// The counter runs.
    pub en: bool,
    /// The counter counts up.
    pub increase: bool,
    /// The counter is reloaded at an alarm.
    pub autoreload: bool,
    /// The alarm is armed.
    pub alarm_en: bool,
    /// The setting of the prescaler.
    pub divider: u16,
    /// The timer is clocked by the crystal.
    pub use_xtal: bool,
}

/// The registers of one timer.
#[derive(Debug, Clone, Copy, PartialEq, Eq, Structural)]
pub struct TimerRegisters {
    /// The configuration register.
    pub config: TimerConfig,
    /// The low word of the counter as last latched.
    pub lo: u32,
    /// The high word of the counter as last latched.
    pub hi: u32,
    /// Set to latch the counter; the timer clears it when it has.
    pub update: bool,
    /// The low word of the alarm value.
    pub alarmlo: u32,
    /// The high word of the alarm value.
    pub alarmhi: u32,
    /// The low word of the value to load into the counter.
    pub loadlo: u32,
    /// The high word of the value to load into the counter.
    pub loadhi: u32,
    /// What was last written to the register that triggers a load.
    pub load: u32,
}

/// The configuration register of the watchdog.
#[derive(Debug, Clone, Copy, PartialEq, Eq, Structural)]
pub struct WdtConfig0 {
    /// The watchdog runs.
    pub wdt_en: bool,
    /// The flash boot protection is on.
    pub wdt_flashboot_mod_en: bool,
    /// What stage 0 does when it times out.
    pub wdt_stg0: u8,
    /// What stage 1 does when it times out.
    pub wdt_stg1: u8,
    /// What stage 2 does when it times out.
    pub wdt_stg2: u8,
    /// What stage 3 does when it times out.
    pub wdt_stg3: u8,
    /// The length of the CPU reset signal.
    pub wdt_cpu_reset_length: u8,
    /// The length of the system reset signal.
    pub wdt_sys_reset_length: u8,
    /// The watchdog is clocked by the crystal.
    pub wdt_use_xtal: bool,
    /// Written as set to make the watchdog take its configuration over.
    pub wdt_conf_update_en: bool,
}

impl WdtConfig0 {
    /// The register at reset: flash boot protection on, both reset signals
    /// of length 1.
    pub open spec fn spec_reset() -> WdtConfig0 {
        WdtConfig0 {
            wdt_en: false,
            wdt_flashboot_mod_en: true,
            wdt_stg0: 0,
            wdt_stg1: 0,
            wdt_stg2: 0,
            wdt_stg3: 0,
            wdt_cpu_reset_length: 1,
            wdt_sys_reset_length: 1,
            wdt_use_xtal: false,
            wdt_conf_update_en: false,
        }
    }

    /// The register with every field zero.
    pub open spec fn spec_zero() -> WdtConfig0 {
        WdtConfig0 {
            wdt_en: false,
            wdt_flashboot_mod_en: false,
            wdt_stg0: 0,
            wdt_stg1: 0,
            wdt_stg2: 0,
            wdt_stg3: 0,
            wdt_cpu_reset_length: 0,
            wdt_sys_reset_length: 0,
            wdt_use_xtal: false,
            wdt_conf_update_en: false,
        }
    }

    /// The register of a running watchdog: stage 0 resets the system, the
    /// other stages do nothing, both reset signals have length 7, and the
    /// configuration is taken over.
    pub open spec fn spec_enabled() -> WdtConfig0 {
        WdtConfig0 {
            wdt_en: true,
            wdt_stg0: 3,
            wdt_cpu_reset_length: 7,
            wdt_sys_reset_length: 7,
            wdt_conf_update_en: true,
            ..WdtConfig0::spec_reset()
        }
    }

    /// The register at reset.
    pub fn reset() -> (reg: WdtConfig0)
        ensures
            reg == WdtConfig0::spec_reset(),
    {
        WdtConfig0 {
            wdt_en: false,
            wdt_flashboot_mod_en: true,
            wdt_stg0: 0,
            wdt_stg1: 0,
            wdt_stg2: 0,
            wdt_stg3: 0,
            wdt_cpu_reset_length: 1,
            wdt_sys_reset_length: 1,
            wdt_use_xtal: false,
            wdt_conf_update_en: false,
        }
    }

    /// The register with every field zero.
    pub fn zero() -> (reg: WdtConfig0)
        ensures
            reg == WdtConfig0::spec_zero(),
    {
        WdtConfig0 {
            wdt_en: false,
            wdt_flashboot_mod_en: false,
            wdt_stg0: 0,
            wdt_stg1: 0,
            wdt_stg2: 0,
            wdt_stg3: 0,
            wdt_cpu_reset_length: 0,
            wdt_sys_reset_length: 0,
            wdt_use_xtal: false,
            wdt_conf_update_en: false,
        }
    }
}

/// The key that opens the write protection of the watchdog registers.
pub const WDT_WKEY: u32 = 0x50D8_3AA1;

/// The registers of a timer group.
#[derive(Debug, Clone, Copy, PartialEq, Eq, Structural)]
pub struct RegisterBlock {
    /// Those of timer 0.
    pub t0: TimerRegisters,
    /// Those of timer 1.
    pub t1: TimerRegisters,
    /// Timer 0 interrupts at its alarm.
    pub int_ena_t0: bool,
    /// Timer 1 interrupts at its alarm.
    pub int_ena_t1: bool,
    /// The alarm of timer 0 has fired.
    pub int_raw_t0: bool,
    /// The alarm of timer 1 has fired.
    pub int_raw_t1: bool,
    /// Last written to the interrupt clear register for timer 0; set clears.
    pub int_clr_t0: bool,
    /// Last written to the interrupt clear register for timer 1; set clears.
    pub int_clr_t1: bool,
    /// The configuration register of the watchdog.
    pub wdtconfig0: WdtConfig0,
    /// The prescaler of the watchdog.
    pub wdt_clk_prescale: u16,
    /// The timeout of stage 0 of the watchdog.
    pub wdtconfig2: u32,
    /// The timeout of stage 1 of the watchdog.
    pub wdtconfig3: u32,
    /// The timeout of stage 2 of the watchdog.
    pub wdtconfig4: u32,
    /// The timeout of stage 3 of the watchdog.
    pub wdtconfig5: u32,
    /// What was last written to the register that feeds the watchdog.
    pub wdtfeed: u32,
    /// The write protection key; the watchdog registers take writes while
    /// it is [`WDT_WKEY`].
    pub wdt_wkey: u32,
}

impl RegisterBlock {
    /// The registers of timer `n`.
    pub open spec fn spec_t(self, n: u8) -> TimerRegisters {
        if n == 0 {
            self.t0
        } else {
            self.t1
        }
    }

    /// The registers with those of timer `n` replaced.
    pub open spec fn with_t(self, n: u8, t: TimerRegisters) -> RegisterBlock {
        if n == 0 {
            RegisterBlock { t0: t, ..self }
        } else {
            RegisterBlock { t1: t, ..self }
        }
    }

    /// The registers with the configuration of timer `n` replaced.
    pub open spec fn with_config(self, n: u8, config: TimerConfig) -> RegisterBlock {
        self.with_t(n, TimerRegisters { config, ..self.spec_t(n) })
    }

    /// The registers with the timeout of `stage` of the watchdog replaced.
    pub open spec fn with_hold(self, stage: MwdtStage, hold: u32) -> RegisterBlock {
        match stage {
            MwdtStage::Stage0 => RegisterBlock { wdtconfig2: hold, ..self },
            MwdtStage::Stage1 => RegisterBlock { wdtconfig3: hold, ..self },
            MwdtStage::Stage2 => RegisterBlock { wdtconfig4: hold, ..self },
            MwdtStage::Stage3 => RegisterBlock { wdtconfig5: hold, ..self },
        }
    }

    /// Whether the alarm of timer `n` has fired.
    pub open spec fn spec_int_raw(self, n: u8) -> bool {
        if n == 0 {
            self.int_raw_t0
        } else {
            self.int_raw_t1
        }
    }

    /// The registers of timer `n`.
    pub fn t(&self, n: u8) -> (t: TimerRegisters)
        ensures
            t == self.spec_t(n),
    {
        if n == 0 {
            self.t0
        } else {
            self.t1
        }
    }

    /// Replaces the registers of timer `n`.
    pub fn set_t(&mut self, n: u8, t: TimerRegisters)
        ensures
            *final(self) == old(self).with_t(n, t),
    {
        if n == 0 {
            self.t0 = t;
        } else {
            self.t1 = t;
        }
    }
}

/// One of the timer groups of the chip.
pub trait TimerGroupInstance {
    /// The number of the group.
    spec fn spec_id() -> u8;

    /// The number of the group.
    fn id() -> (id: u8)
        ensures
            id == Self::spec_id(),
            id < 2,
    ;

    /// The interrupt of the watchdog of the group.
    fn wdt_interrupt() -> (interrupt: Interrupt)
        ensures
            interrupt == (if Self::spec_id() == 0 {
                Interrupt::TG0_WDT_LEVEL
            } else {
                Interrupt::TG1_WDT_LEVEL
            }),
    ;
}

/// Timer group 0.
#[derive(Debug)]
pub struct TIMG0;

/// Timer group 1.
#[derive(Debug)]
pub struct TIMG1;

impl TimerGroupInstance for TIMG0 {
    open spec fn spec_id() -> u8 {
        0
    }

    fn id() -> (id: u8) {
        0
    }

    fn wdt_interrupt() -> (interrupt: Interrupt) {
        Interrupt::TG0_WDT_LEVEL
    }
}

impl TimerGroupInstance for TIMG1 {
    open spec fn spec_id() -> u8 {
        1
    }

    fn id() -> (id: u8) {
        1
    }

    fn wdt_interrupt() -> (interrupt: Interrupt) {
        Interrupt::TG1_WDT_LEVEL
    }
}

/// Selects the clock of the timers of a group: the crystal if `use_xtal`.
pub fn configure_src_clk(regs: &mut RegisterBlock, use_xtal: bool)
    ensures
        *final(regs) == (RegisterBlock {
            t0: TimerRegisters {
                config: TimerConfig { use_xtal, ..old(regs).t0.config },
                ..old(regs).t0
            },
            t1: TimerRegisters {
                config: TimerConfig { use_xtal, ..old(regs).t1.config },
                ..old(regs).t1
            },
            ..*old(regs)
        }),
{
    regs.t0.config.use_xtal = use_xtal;
    regs.t1.config.use_xtal = use_xtal;
}

/// Selects the clock of the watchdog of a group: the crystal if `use_xtal`.
pub fn configure_wdt_src_clk(regs: &mut RegisterBlock, use_xtal: bool)
    ensures
        *final(regs) == (RegisterBlock {
            wdtconfig0: WdtConfig0 { wdt_use_xtal: use_xtal, ..old(regs).wdtconfig0 },
            ..*old(regs)
        }),
{
    regs.wdtconfig0.wdt_use_xtal = use_xtal;
}

/// The registers after the clock of the watchdog was selected for a chip
/// whose default source is `source`: the crystal if it is 1, another clock
/// if it is another number, and the registers as they are where the source
/// cannot be chosen.
pub open spec fn wdt_clock_configured(regs: RegisterBlock, source: Option<u8>) -> RegisterBlock {
    match source {
        Some(s) => RegisterBlock {
            wdtconfig0: WdtConfig0 { wdt_use_xtal: s == 1, ..regs.wdtconfig0 },
            ..regs
        },
        None => regs,
    }
}

/// A timer group consisting of 2 timers and a watchdog timer.
pub struct TimerGroup<T: TimerGroupInstance> {
    /// Timer 0
    pub timer0: Timer,
    /// Timer 1
    pub timer1: Timer,
    /// Watchdog timer
    pub wdt: Wdt<T>,
}

impl<T: TimerGroupInstance> TimerGroup<T> {
    /// Construct a new instance of [`TimerGroup`] in blocking mode. Its
    /// watchdog is constructed with it, and by that gets its clock selected
    /// as `default_wdt_clock_source` says.
    pub fn new(_timer_group: T, regs: &mut RegisterBlock, default_wdt_clock_source: Option<u8>) -> (group:
        Self)
        ensures
            group.timer0.spec_timer_number() == 0,
            group.timer1.spec_timer_number() == 1,
            group.timer0.spec_timer_group() == T::spec_id(),
            group.timer1.spec_timer_group() == T::spec_id(),
            *final(regs) == wdt_clock_configured(*old(regs), default_wdt_clock_source),
    {
        Self {
            timer0: Timer { timer: 0, tg: T::id() },
            timer1: Timer { timer: 1, tg: T::id() },
            wdt: Wdt::new(regs, default_wdt_clock_source),
        }
    }
}

/// A timer within a Timer Group.
#[derive(Debug)]
pub struct Timer {
    timer: u8,
    tg: u8,
}

/// The divisor that the prescaler setting `bits` stands for: 65536 for 0,
/// 2 for 1 and 2, and the setting itself from 3 on.
pub open spec fn prescaler_divider(bits: u16) -> u32 {
    if bits == 0 {
        65536
    } else if bits == 1 || bits == 2 {
        2
    } else {
        bits as u32
    }
}

/// The number of microseconds that `ticks` ticks last with a clock of
/// `clock_hz` divided by `divider`, counted in periods of whole
/// picoseconds.
pub open spec fn spec_ticks_to_timeout(ticks: u64, clock_hz: u32, divider: u32) -> int {
    ticks * (1_000_000_000_000int / (clock_hz as int / divider as int)) / 1_000_000
}

/// The number of ticks that `micros` microseconds last with a clock of
/// `clock_hz` divided by `divider`.
pub open spec fn spec_timeout_to_ticks(micros: u64, clock_hz: u32, divider: u32) -> int {
    micros * (clock_hz as int / divider as int) / 1_000_000
}

/// The number of microseconds that `ticks` ticks last.
pub fn ticks_to_timeout(ticks: u64, clock_hz: u32, divider: u32) -> (micros: u64)
    requires
        0 < divider <= clock_hz,
        ticks * (1_000_000_000_000int / (clock_hz as int / divider as int)) <= u64::MAX,
    ensures
        micros == spec_ticks_to_timeout(ticks, clock_hz, divider),
{
    // 1_000_000 is used to get rid of `float` calculations
    let rate: u64 = clock_hz as u64 / divider as u64;
    assert(rate >= 1) by (nonlinear_arith)
        requires
            rate == clock_hz as int / divider as int,
            0 < divider <= clock_hz,
    ;
    let period: u64 = 1_000_000 * 1_000_000 / rate;

    ticks * period / 1_000_000
}

/// The number of ticks that `micros` microseconds last, unless their
/// product with the tick rate is more than 64 bits hold.
pub fn timeout_to_ticks(micros: u64, clock_hz: u32, divider: u32) -> (ticks: Option<u64>)
    requires
        divider != 0,
    ensures
        micros * (clock_hz as int / divider as int) <= u64::MAX <==> ticks is Some,
        ticks matches Some(t) ==> t == spec_timeout_to_ticks(micros, clock_hz, divider),
{
    let ticks_per_sec: u64 = (clock_hz / divider) as u64;

    match micros.checked_mul(ticks_per_sec) {
        Some(n) => Some(n / 1_000_000),
        None => None,
    }
}

/// The interrupt of timer `timer` of group `tg`.
pub open spec fn timer_interrupt(tg: u8, timer: u8) -> Interrupt {
    if tg == 0 && timer == 0 {
        Interrupt::TG0_T0_LEVEL
    } else if tg == 0 {
        Interrupt::TG0_T1_LEVEL
    } else if timer == 0 {
        Interrupt::TG1_T0_LEVEL
    } else {
        Interrupt::TG1_T1_LEVEL
    }
}

/// The alarm value for a timeout of `ticks` ticks, if the counter of 54
/// bits holds it: the low word and the high word.
pub open spec fn alarm_words(ticks: u64) -> Option<(u32, u32)> {
    if ticks <= 0x3F_FFFF_FFFF_FFFF {
        Some(((ticks % 0x1_0000_0000) as u32, (ticks / 0x1_0000_0000) as u32))
    } else {
        None
    }
}

/// Timer peripheral instance
impl Timer {
    #[verifier::type_invariant]
    spec fn wf(self) -> bool {
        self.timer < 2 && self.tg < 2
    }

    /// The number of the group of the timer.
    pub closed spec fn spec_timer_group(self) -> u8 {
        self.tg
    }

    /// The number of the timer in its group.
    pub closed spec fn spec_timer_number(self) -> u8 {
        self.timer
    }

    /// Creates a new peripheral reference with a shorter lifetime.
    ///
    /// Use this method if you would like to keep working with the peripheral
    /// after you dropped the driver that consumes this.
    pub fn reborrow(&mut self) -> (timer: Timer)
        ensures
            timer.spec_timer_group() == old(self).spec_timer_group(),
            timer.spec_timer_number() == old(self).spec_timer_number(),
            final(self).spec_timer_group() == old(self).spec_timer_group(),
            final(self).spec_timer_number() == old(self).spec_timer_number(),
    {
        proof {
            use_type_invariant(&*self);
        }
        Timer { timer: self.timer, tg: self.tg }
    }

    /// The number of the group of the timer.
    pub fn timer_group(&self) -> (tg: u8)
        ensures
            tg == self.spec_timer_group(),
            tg < 2,
    {
        proof {
            use_type_invariant(self);
        }
        self.tg
    }

    /// The number of the timer in its group.
    pub fn timer_number(&self) -> (timer: u8)
        ensures
            timer == self.spec_timer_number(),
            timer < 2,
    {
        proof {
            use_type_invariant(self);
        }
        self.timer
    }

    /// The registers of the timer.
    pub fn t(&self, regs: &RegisterBlock) -> (t: TimerRegisters)
        ensures
            t == regs.spec_t(self.spec_timer_number()),
    {
        regs.t(self.timer_number())
    }

    /// The interrupt of the timer.
    pub fn peripheral_interrupt(&self) -> (interrupt: Interrupt)
        ensures
            interrupt == timer_interrupt(self.spec_timer_group(), self.spec_timer_number()),
    {
        match (self.timer_group(), self.timer_number()) {
            (0, 0) => Interrupt::TG0_T0_LEVEL,
            (0, _) => Interrupt::TG0_T1_LEVEL,
            (_, 0) => Interrupt::TG1_T0_LEVEL,
            (_, _) => Interrupt::TG1_T1_LEVEL,
        }
    }

    /// The steps that install the interrupt handler of the timer from the
    /// core `current`.
    pub fn set_interrupt_handler(&self, current: Cpu, multi_core: bool) -> (steps: Vec<HandlerStep>)
        ensures
            steps@ == handler_steps(
                timer_interrupt(self.spec_timer_group(), self.spec_timer_number()),
                current,
                multi_core,
            ),
    {
        let interrupt = self.peripheral_interrupt();
        set_interrupt_handler(interrupt, current, multi_core)
    }

    /// The place of the waker of the timer among the four wakers.
    pub fn waker(&self) -> (index: usize)
        ensures
            index == 2 * self.spec_timer_number() + self.spec_timer_group(),
            index < 4,
    {
        let number = self.timer_number();
        let group = self.timer_group();
        assert((number == 0 || number == 1) && (group == 0 || group == 1) ==> (number << 1) | group
            == 2 * number + group) by (bit_vector);
        let index: u8 = (number << 1) | group;
        index as usize
    }

    /// Sets the counter to zero.
    pub fn reset_counter(&self, regs: &mut RegisterBlock)
        ensures
            *final(regs) == old(regs).with_t(
                self.spec_timer_number(),
                TimerRegisters {
                    loadlo: 0,
                    loadhi: 0,
                    load: 1,
                    ..old(regs).spec_t(self.spec_timer_number())
                },
            ),
    {
        let mut t = self.t(regs);

        t.loadlo = 0;
        t.loadhi = 0;

        t.load = 1;
        regs.set_t(self.timer_number(), t);
    }

    /// Lets the counter run or stops it.
    pub fn set_counter_active(&self, regs: &mut RegisterBlock, state: bool)
        ensures
            *final(regs) == old(regs).with_config(
                self.spec_timer_number(),
                TimerConfig { en: state, ..old(regs).spec_t(self.spec_timer_number()).config },
            ),
    {
        let mut t = self.t(regs);
        t.config.en = state;
        regs.set_t(self.timer_number(), t);
    }

    /// Whether the counter runs.
    pub fn is_counter_active(&self, regs: &RegisterBlock) -> (active: bool)
        ensures
            active == regs.spec_t(self.spec_timer_number()).config.en,
    {
        self.t(regs).config.en
    }

    /// Lets the counter count down, or up.
    pub fn set_counter_decrementing(&self, regs: &mut RegisterBlock, decrementing: bool)
        ensures
            *final(regs) == old(regs).with_config(
                self.spec_timer_number(),
                TimerConfig {
                    increase: !decrementing,
                    ..old(regs).spec_t(self.spec_timer_number()).config
                },
            ),
    {
        let mut t = self.t(regs);
        t.config.increase = !decrementing;
        regs.set_t(self.timer_number(), t);
    }

    /// Lets the counter be reloaded at an alarm, or not.
    pub fn set_auto_reload(&self, regs: &mut RegisterBlock, auto_reload: bool)
        ensures
            *final(regs) == old(regs).with_config(
                self.spec_timer_number(),
                TimerConfig {
                    autoreload: auto_reload,
                    ..old(regs).spec_t(self.spec_timer_number()).config
                },
            ),
    {
        let mut t = self.t(regs);
        t.config.autoreload = auto_reload;
        regs.set_t(self.timer_number(), t);
    }

    /// Arms the alarm or disarms it.
    pub fn set_alarm_active(&self, regs: &mut RegisterBlock, state: bool)
        ensures
            *final(regs) == old(regs).with_config(
                self.spec_timer_number(),
                TimerConfig {
                    alarm_en: state,
                    ..old(regs).spec_t(self.spec_timer_number()).config
                },
            ),
    {
        let mut t = self.t(regs);
        t.config.alarm_en = state;
        regs.set_t(self.timer_number(), t);
    }

    /// The divisor of the prescaler.
    ///
    /// The prescaler can divide the APB clock by a factor from 2 to 65536.
    /// Specifically, when the divider setting is either 1 or 2, the clock
    /// divisor is 2; when it is 0, the clock divisor is 65536. Any other
    /// value will cause the clock to be divided by exactly that value.
    pub fn divider(&self, regs: &RegisterBlock) -> (divider: u32)
        ensures
            divider == prescaler_divider(regs.spec_t(self.spec_timer_number()).config.divider),
            2 <= divider <= 65536,
    {
        match self.t(regs).config.divider {
            0 => 65536,
            1 | 2 => 2,
            n => n as u32,
        }
    }

    /// Sets the alarm to a timeout of `micros` microseconds with the source
    /// clock at `clock_hz`.
    ///
    /// # Errors
    /// [`Error::InvalidTimeout`] if the product of the microseconds and the
    /// tick rate is more than 64 bits hold; the registers then stay as they
    /// are. The ticks of any other timeout fit the counter of 54 bits.
    pub fn load_value(&self, regs: &mut RegisterBlock, micros: u64, clock_hz: u32) -> (loaded:
        Result<(), Error>)
        ensures
            ({
                let n = self.spec_timer_number();
                let div = prescaler_divider(old(regs).spec_t(n).config.divider);
                let rate = clock_hz as int / div as int;
                let ticks = spec_timeout_to_ticks(micros, clock_hz, div);
                &&& micros * rate <= u64::MAX <==> loaded is Ok
                &&& loaded is Ok ==> ticks <= 0x3F_FFFF_FFFF_FFFF
                &&& loaded matches Err(e) ==> e == Error::InvalidTimeout && *final(regs) == *old(
                    regs,
                )
                &&& loaded is Ok ==> *final(regs) == old(regs).with_t(
                    n,
                    TimerRegisters {
                        alarmlo: (ticks % 0x1_0000_0000) as u32,
                        alarmhi: (ticks / 0x1_0000_0000) as u32,
                        ..old(regs).spec_t(n)
                    },
                )
            }),
    {
        let Some(ticks) = timeout_to_ticks(micros, clock_hz, self.divider(regs)) else {
            return Err(Error::InvalidTimeout);
        };

        // The counter is 54-bits wide, so we must ensure that the provided
        // value is not too wide:
        assert((ticks & !0x3F_FFFF_FFFF_FFFFu64) != 0 <==> ticks > 0x3F_FFFF_FFFF_FFFFu64)
            by (bit_vector);
        if (ticks & !0x3F_FFFF_FFFF_FFFF) != 0 {
            return Err(Error::InvalidTimeout);
        }
        assert((ticks >> 32) == ticks / 0x1_0000_0000 && (ticks & 0xFFFF_FFFF) == ticks
            % 0x1_0000_0000) by (bit_vector);
        let high: u32 = (ticks >> 32) as u32;
        let low: u32 = (ticks & 0xFFFF_FFFF) as u32;

        let mut t = self.t(regs);

        t.alarmlo = low;
        t.alarmhi = high;
        regs.set_t(self.timer_number(), t);

        Ok(())
    }

    /// Asks for the interrupt of the timer to be cleared, and arms the alarm
    /// again if the timer is periodic.
    pub fn clear_interrupt(&self, regs: &mut RegisterBlock)
        ensures
            ({
                let n = self.spec_timer_number();
                let config = old(regs).spec_t(n).config;
                *final(regs) == (RegisterBlock {
                    int_clr_t0: n == 0,
                    int_clr_t1: n == 1,
                    ..*old(regs)
                }).with_config(n, TimerConfig { alarm_en: config.autoreload, ..config })
            }),
    {
        let n = self.timer_number();
        regs.int_clr_t0 = n == 0;
        regs.int_clr_t1 = n == 1;
        let periodic = self.t(regs).config.autoreload;
        self.set_alarm_active(regs, periodic);
    }

    /// The time that the counter shows, in microseconds, with the source
    /// clock at `clock_hz`. The counter is latched for the reading.
    pub fn now(&self, regs: &mut RegisterBlock, clock_hz: u32) -> (micros: u64)
        requires
            ({
                let t = old(regs).spec_t(self.spec_timer_number());
                let div = prescaler_divider(t.config.divider);
                &&& div <= clock_hz
                &&& (t.hi * 0x1_0000_0000 + t.lo) * (1_000_000_000_000int / (clock_hz as int
                    / div as int)) <= u64::MAX
            }),
        ensures
            ({
                let n = self.spec_timer_number();
                let t = old(regs).spec_t(n);
                &&& *final(regs) == old(regs).with_t(n, TimerRegisters { update: false, ..t })
                &&& micros == spec_ticks_to_timeout(
                    (t.hi * 0x1_0000_0000 + t.lo) as u64,
                    clock_hz,
                    prescaler_divider(t.config.divider),
                )
            }),
    {
        let mut t = self.t(regs);

        t.update = true;
        regs.set_t(self.timer_number(), t);
        // The timer latches the counter and clears the bit.
        t.update = false;
        regs.set_t(self.timer_number(), t);

        let value_lo: u64 = t.lo as u64;
        let value_hi: u64 = t.hi as u64;

        assert(value_hi < 0x1_0000_0000 && value_lo < 0x1_0000_0000 ==> (value_hi << 32) | value_lo
            == value_hi * 0x1_0000_0000 + value_lo) by (bit_vector);
        let ticks: u64 = (value_hi << 32) | value_lo;
        ticks_to_timeout(ticks, clock_hz, self.divider(regs))
    }

    /// Whether the alarm of the timer has fired.
    pub fn is_interrupt_set(&self, regs: &RegisterBlock) -> (set: bool)
        ensures
            set == regs.spec_int_raw(self.spec_timer_number()),
    {
        if self.timer_number() == 0 {
            regs.int_raw_t0
        } else {
            regs.int_raw_t1
        }
    }

    /// Lets the timer interrupt at its alarm, or not.
    pub fn set_interrupt_enabled(&self, regs: &mut RegisterBlock, state: bool)
        ensures
            *final(regs) == (if self.spec_timer_number() == 0 {
                RegisterBlock { int_ena_t0: state, ..*old(regs) }
            } else {
                RegisterBlock { int_ena_t1: state, ..*old(regs) }
            }),
    {
        if self.timer_number() == 0 {
            regs.int_ena_t0 = state;
        } else {
            regs.int_ena_t1 = state;
        }
    }

    /// Starts the timer from zero, counting up, with the alarm armed.
    pub fn start(&self, regs: &mut RegisterBlock)
        ensures
            ({
                let n = self.spec_timer_number();
                let t = old(regs).spec_t(n);
                *final(regs) == old(regs).with_t(
                    n,
                    TimerRegisters {
                        config: TimerConfig {
                            en: true,
                            alarm_en: true,
                            increase: true,
                            ..t.config
                        },
                        loadlo: 0,
                        loadhi: 0,
                        load: 1,
                        ..t
                    },
                )
            }),
    {
        self.set_counter_active(regs, false);
        self.set_alarm_active(regs, false);

        self.reset_counter(regs);
        self.set_counter_decrementing(regs, false);

        self.set_counter_active(regs, true);
        self.set_alarm_active(regs, true);
    }

    /// Stops the counter.
    pub fn stop(&self, regs: &mut RegisterBlock)
        ensures
            *final(regs) == old(regs).with_config(
                self.spec_timer_number(),
                TimerConfig { en: false, ..old(regs).spec_t(self.spec_timer_number()).config },
            ),
    {
        self.set_counter_active(regs, false);
    }

    /// Whether the counter runs.
    pub fn is_running(&self, regs: &RegisterBlock) -> (running: bool)
        ensures
            running == regs.spec_t(self.spec_timer_number()).config.en,
    {
        self.is_counter_active(regs)
    }

    /// What the interrupt handler of an awaited timer does before it wakes
    /// the waiting task: it stops the timer from interrupting again. Returns
    /// the place of the waker to wake.
    pub fn handle_irq(&self, regs: &mut RegisterBlock) -> (index: usize)
        ensures
            *final(regs) == (if self.spec_timer_number() == 0 {
                RegisterBlock { int_ena_t0: false, ..*old(regs) }
            } else {
                RegisterBlock { int_ena_t1: false, ..*old(regs) }
            }),
            index == 2 * self.spec_timer_number() + self.spec_timer_group(),
    {
        self.set_interrupt_enabled(regs, false);
        self.waker()
    }
}

/// Behavior of the MWDT stage if it times out.
#[derive(Debug, Clone, Copy, PartialEq, Eq, Structural)]
pub enum MwdtStageAction {
    /// No effect on the system.
    Off,
    /// Trigger an interrupt.
    Interrupt,
    /// Reset the CPU core.
    ResetCpu,
    /// Reset the main system, power management unit and RTC peripherals.
    ResetSystem,
}

impl MwdtStageAction {
    /// The number that stands for the action in the configuration register.
    pub open spec fn spec_bits(self) -> u8 {
        match self {
            MwdtStageAction::Off => 0,
            MwdtStageAction::Interrupt => 1,
            MwdtStageAction::ResetCpu => 2,
            MwdtStageAction::ResetSystem => 3,
        }
    }

    /// The number that stands for the action in the configuration register.
    pub fn bits(self) -> (bits: u8)
        ensures
            bits == self.spec_bits(),
    {
        match self {
            MwdtStageAction::Off => 0,
            MwdtStageAction::Interrupt => 1,
            MwdtStageAction::ResetCpu => 2,
            MwdtStageAction::ResetSystem => 3,
        }
    }
}

/// MWDT stages.
///
/// Timer stages allow for a timer to have a series of different timeout values
/// and corresponding expiry action.
#[derive(Debug, Clone, Copy, PartialEq, Eq, Structural)]
pub enum MwdtStage {
    /// MWDT stage 0.
    Stage0,
    /// MWDT stage 1.
    Stage1,
    /// MWDT stage 2.
    Stage2,
    /// MWDT stage 3.
    Stage3,
}

impl MwdtStage {
    /// The number of the stage.
    pub open spec fn spec_index(self) -> int {
        match self {
            MwdtStage::Stage0 => 0,
            MwdtStage::Stage1 => 1,
            MwdtStage::Stage2 => 2,
            MwdtStage::Stage3 => 3,
        }
    }

    /// The number of the stage.
    pub fn index(self) -> (index: usize)
        ensures
            index == self.spec_index(),
    {
        match self {
            MwdtStage::Stage0 => 0,
            MwdtStage::Stage1 => 1,
            MwdtStage::Stage2 => 2,
            MwdtStage::Stage3 => 3,
        }
    }
}

/// `a` divided by `b`, rounded up.
pub open spec fn div_ceil(a: int, b: int) -> int {
    if a % b == 0 {
        a / b
    } else {
        a / b + 1
    }
}

/// The prescaler for a watchdog timeout of `ticks` ticks of the source
/// clock: 1 while the ticks fit the timeout register of 32 bits, else the
/// least that makes them fit, and at most 65535.
pub open spec fn wdt_prescaler(ticks: u64) -> u16 {
    if ticks > u32::MAX {
        let p = div_ceil(ticks as int, 0x1_0000_0000);
        if p <= u16::MAX {
            p as u16
        } else {
            u16::MAX
        }
    } else {
        1
    }
}

/// The value of the timeout register for a watchdog timeout of `ticks`
/// ticks of the source clock: the ticks divided by the prescaler, rounded
/// up, and at most what the register holds.
pub open spec fn wdt_hold(ticks: u64) -> u32 {
    if ticks > u32::MAX {
        let t = div_ceil(ticks as int, wdt_prescaler(ticks) as int);
        if t <= u32::MAX {
            t as u32
        } else {
            u32::MAX
        }
    } else {
        ticks as u32
    }
}

/// The prescaler and the timeout register value for a watchdog timeout of
/// `ticks` ticks of the source clock.
pub fn wdt_prescale(ticks: u64) -> (scaled: (u16, u32))
    ensures
        scaled == (wdt_prescaler(ticks), wdt_hold(ticks)),
        scaled.0 >= 1,
{
    if ticks > u32::MAX as u64 {
        let quotient: u64 = ticks / 0x1_0000_0000;
        let ceil: u64 = if ticks % 0x1_0000_0000 == 0 {
            quotient
        } else {
            quotient + 1
        };
        let prescaler: u16 = if ceil <= u16::MAX as u64 {
            ceil as u16
        } else {
            u16::MAX
        };
        let quotient: u64 = ticks / (prescaler as u64);
        let ceil: u64 = if ticks % (prescaler as u64) == 0 {
            quotient
        } else {
            assert(quotient < u64::MAX) by (nonlinear_arith)
                requires
                    prescaler >= 2,
                    quotient == ticks / (prescaler as u64),
            ;
            quotient + 1
        };
        let timeout: u32 = if ceil <= u32::MAX as u64 {
            ceil as u32
        } else {
            u32::MAX
        };
        (prescaler, timeout)
    } else {
        (1, ticks as u32)
    }
}

/// Watchdog timer
pub struct Wdt<TG> {
    phantom: PhantomData<TG>,
}

/// Watchdog driver
impl<TG: TimerGroupInstance> Wdt<TG> {
    /// Construct a new instance of [`Wdt`]: the clock of the watchdog is
    /// selected. `default_clock_source` is the source that the chip takes by
    /// default, the crystal if it is 1, or `None` on a chip on which the
    /// source cannot be chosen, where the registers stay as they are.
    pub fn new(regs: &mut RegisterBlock, default_clock_source: Option<u8>) -> (wdt: Self)
        ensures
            *final(regs) == wdt_clock_configured(*old(regs), default_clock_source),
    {
        if let Some(source) = default_clock_source {
            configure_wdt_src_clk(regs, source == 1);
        }

        Self { phantom: PhantomData }
    }

    /// The registers after the watchdog was switched on or off, the write
    /// protection closed again.
    pub open spec fn enabled_state(regs: RegisterBlock, enabled: bool) -> RegisterBlock {
        RegisterBlock {
            wdtconfig0: if enabled {
                WdtConfig0::spec_enabled()
            } else {
                WdtConfig0::spec_zero()
            },
            wdt_wkey: 0,
            ..regs
        }
    }

    /// Enable the watchdog timer instance
    pub fn enable(&mut self, regs: &mut RegisterBlock)
        ensures
            *final(regs) == Self::enabled_state(*old(regs), true),
    {
        self.set_wdt_enabled(regs, true);
    }

    /// Disable the watchdog timer instance
    pub fn disable(&mut self, regs: &mut RegisterBlock)
        ensures
            *final(regs) == Self::enabled_state(*old(regs), false),
    {
        self.set_wdt_enabled(regs, false);
    }

    /// Forcibly enable or disable the watchdog timer
    ///
    /// Switched on, stage 0 of the watchdog resets the system and the other
    /// stages do nothing; switched off, its configuration register is zero.
    pub fn set_wdt_enabled(&mut self, regs: &mut RegisterBlock, enabled: bool)
        ensures
            *final(regs) == Self::enabled_state(*old(regs), enabled),
    {
        self.set_write_protection(regs, false);

        if !enabled {
            regs.wdtconfig0 = WdtConfig0::zero();
        } else {
            let mut w = WdtConfig0::reset();
            w.wdt_en = true;
            regs.wdtconfig0 = w;

            let mut w = WdtConfig0::reset();
            w.wdt_flashboot_mod_en = false;
            regs.wdtconfig0 = w;

            let mut w = WdtConfig0::reset();
            w.wdt_en = true;
            w.wdt_stg0 = MwdtStageAction::ResetSystem.bits();
            w.wdt_cpu_reset_length = 7;
            w.wdt_sys_reset_length = 7;
            w.wdt_stg1 = MwdtStageAction::Off.bits();
            w.wdt_stg2 = MwdtStageAction::Off.bits();
            w.wdt_stg3 = MwdtStageAction::Off.bits();
            regs.wdtconfig0 = w;

            regs.wdtconfig0.wdt_conf_update_en = true;
        }

        self.set_write_protection(regs, true);
    }

    /// Feed the watchdog timer
    pub fn feed(&mut self, regs: &mut RegisterBlock)
        ensures
            *final(regs) == (RegisterBlock { wdtfeed: 1, wdt_wkey: 0, ..*old(regs) }),
    {
        self.set_write_protection(regs, false);

        regs.wdtfeed = 1;

        self.set_write_protection(regs, true);
    }

    /// Closes the write protection of the watchdog registers, or opens it.
    pub fn set_write_protection(&mut self, regs: &mut RegisterBlock, enable: bool)
        ensures
            *final(regs) == (RegisterBlock {
                wdt_wkey: if enable {
                    0
                } else {
                    WDT_WKEY
                },
                ..*old(regs)
            }),
    {
        let wkey = if enable {
            0u32
        } else {
            0x50D8_3AA1u32
        };

        regs.wdt_wkey = wkey;
    }

    /// Set the timeout, in microseconds, of the watchdog timer, with the
    /// source clock at `clock_mhz`.
    pub fn set_timeout(
        &mut self,
        regs: &mut RegisterBlock,
        stage: MwdtStage,
        micros: u64,
        clock_mhz: u32,
    )
        requires
            micros * clock_mhz <= u64::MAX,
        ensures
            ({
                let ticks = (micros * clock_mhz) as u64;
                *final(regs) == (RegisterBlock {
                    wdt_clk_prescale: wdt_prescaler(ticks),
                    wdtconfig0: WdtConfig0 { wdt_conf_update_en: true, ..old(regs).wdtconfig0 },
                    wdt_wkey: 0,
                    ..*old(regs)
                }).with_hold(stage, wdt_hold(ticks))
            }),
    {
        let timeout_ticks: u64 = micros * clock_mhz as u64;

        let (prescaler, timeout) = wdt_prescale(timeout_ticks);

        self.set_write_protection(regs, false);

        regs.wdt_clk_prescale = prescaler;

        match stage {
            MwdtStage::Stage0 => {
                regs.wdtconfig2 = timeout;
            },
            MwdtStage::Stage1 => {
                regs.wdtconfig3 = timeout;
            },
            MwdtStage::Stage2 => {
                regs.wdtconfig4 = timeout;
            },
            MwdtStage::Stage3 => {
                regs.wdtconfig5 = timeout;
            },
        }

        regs.wdtconfig0.wdt_conf_update_en = true;

        self.set_write_protection(regs, true);
    }

    /// Set the stage action of the MWDT for a specific stage.
    pub fn set_stage_action(
        &mut self,
        regs: &mut RegisterBlock,
        stage: MwdtStage,
        action: MwdtStageAction,
    )
        ensures
            *final(regs) == (RegisterBlock {
                wdtconfig0: match stage {
                    MwdtStage::Stage0 => WdtConfig0 {
                        wdt_stg0: action.spec_bits(),
                        ..old(regs).wdtconfig0
                    },
                    MwdtStage::Stage1 => WdtConfig0 {
                        wdt_stg1: action.spec_bits(),
                        ..old(regs).wdtconfig0
                    },
                    MwdtStage::Stage2 => WdtConfig0 {
                        wdt_stg2: action.spec_bits(),
                        ..old(regs).wdtconfig0
                    },
                    MwdtStage::Stage3 => WdtConfig0 {
                        wdt_stg3: action.spec_bits(),
                        ..old(regs).wdtconfig0
                    },
                },
                wdt_wkey: 0,
                ..*old(regs)
            }),
    {
        self.set_write_protection(regs, false);

        match stage {
            MwdtStage::Stage0 => {
                regs.wdtconfig0.wdt_stg0 = action.bits();
            },
            MwdtStage::Stage1 => {
                regs.wdtconfig0.wdt_stg1 = action.bits();
            },
            MwdtStage::Stage2 => {
                regs.wdtconfig0.wdt_stg2 = action.bits();
            },
            MwdtStage::Stage3 => {
                regs.wdtconfig0.wdt_stg3 = action.bits();
            },
        }

        self.set_write_protection(regs, true);
    }

    /// The steps that install the interrupt handler of the watchdog: the
    /// handler is bound and the interrupt enabled.
    pub fn set_interrupt_handler(&mut self) -> (steps: Vec<HandlerStep>)
        ensures
            steps@ == seq![
                HandlerStep::Bind {
                    interrupt: if TG::spec_id() == 0 {
                        Interrupt::TG0_WDT_LEVEL
                    } else {
                        Interrupt::TG1_WDT_LEVEL
                    },
                },
                HandlerStep::Enable {
                    interrupt: if TG::spec_id() == 0 {
                        Interrupt::TG0_WDT_LEVEL
                    } else {
                        Interrupt::TG1_WDT_LEVEL
                    },
                },
            ],
    {
        bind_and_enable(TG::wdt_interrupt())
    }

    /// The interrupt of the watchdog.
    pub fn interrupt(&self) -> (interrupt: Interrupt)
        ensures
            interrupt == (if TG::spec_id() == 0 {
                Interrupt::TG0_WDT_LEVEL
            } else {
                Interrupt::TG1_WDT_LEVEL
            }),
    {
        TG::wdt_interrupt()
    }
}

/// Event Task Matrix event for a timer.
#[derive(Debug, Clone, Copy, PartialEq, Eq, Structural)]
pub struct Event {
    id: u8,
}

/// Event Task Matrix task for a timer.
#[derive(Debug, Clone, Copy, PartialEq, Eq, Structural)]
pub struct Task {
    id: u8,
}

impl Event {
    /// The number of the event in the matrix.
    pub closed spec fn spec_id(self) -> u8 {
        self.id
    }

    /// The number of the event in the matrix.
    pub fn id(&self) -> (id: u8)
        ensures
            id == self.spec_id(),
    {
        self.id
    }
}

impl Task {
    /// The number of the task in the matrix.
    pub closed spec fn spec_id(self) -> u8 {
        self.id
    }

    /// The number of the task in the matrix.
    pub fn id(&self) -> (id: u8)
        ensures
            id == self.spec_id(),
    {
        self.id
    }
}

/// General purpose timer ETM events.
pub trait Events {
    /// ETM event triggered on alarm
    fn on_alarm(&self) -> Event;
}

/// General purpose timer ETM tasks
pub trait Tasks {
    /// ETM task to start the counter
    fn cnt_start(&self) -> Task;

    /// ETM task to start the alarm
    fn cnt_stop(&self) -> Task;

    /// ETM task to stop the counter
    fn cnt_reload(&self) -> Task;

    /// ETM task to reload the counter
    fn cnt_cap(&self) -> Task;

    /// ETM task to load the counter with the value stored when the last
    /// `now()` was called
    fn alarm_start(&self) -> Task;
}

impl Events for Timer {
    fn on_alarm(&self) -> (event: Event)
        ensures
            event.spec_id() == 48 + self.spec_timer_group(),
    {
        Event { id: 48 + self.timer_group() }
    }
}

impl Tasks for Timer {
    fn cnt_start(&self) -> (task: Task)
        ensures
            task.spec_id() == 88 + self.spec_timer_group(),
    {
        Task { id: 88 + self.timer_group() }
    }

    fn alarm_start(&self) -> (task: Task)
        ensures
            task.spec_id() == 90 + self.spec_timer_group(),
    {
        Task { id: 90 + self.timer_group() }
    }

    fn cnt_stop(&self) -> (task: Task)
        ensures
            task.spec_id() == 92 + self.spec_timer_group(),
    {
        Task { id: 92 + self.timer_group() }
    }

    fn cnt_reload(&self) -> (task: Task)
        ensures
            task.spec_id() == 94 + self.spec_timer_group(),
    {
        Task { id: 94 + self.timer_group() }
    }

    fn cnt_cap(&self) -> (task: Task)
        ensures
            task.spec_id() == 96 + self.spec_timer_group(),
    {
        Task { id: 96 + self.timer_group() }
    }
}

} // verus!
