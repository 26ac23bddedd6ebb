use esp_preempt::interrupt::{Cpu, HandlerStep, Interrupt};
use esp_preempt::timg::{
    configure_src_clk, configure_wdt_src_clk, ticks_to_timeout, timeout_to_ticks, wdt_prescale,
    Error, Events, MwdtStage, MwdtStageAction, RegisterBlock, Tasks, TimerConfig, TimerGroup,
    TimerGroupInstance, TimerRegisters, Wdt, WdtConfig0, TIMG0, TIMG1, WDT_WKEY,
};

fn timer_regs() -> TimerRegisters {
    TimerRegisters {
        config: TimerConfig {
            en: false,
            increase: true,
            autoreload: true,
            alarm_en: false,
            divider: 1,
            use_xtal: false,
        },
        lo: 0,
        hi: 0,
        update: false,
        alarmlo: 0,
        alarmhi: 0,
        loadlo: 0,
        loadhi: 0,
        load: 0,
    }
}

fn regs() -> RegisterBlock {
    RegisterBlock {
        t0: timer_regs(),
        t1: timer_regs(),
        int_ena_t0: false,
        int_ena_t1: false,
        int_raw_t0: false,
        int_raw_t1: false,
        int_clr_t0: false,
        int_clr_t1: false,
        wdtconfig0: WdtConfig0::reset(),
        wdt_clk_prescale: 1,
        wdtconfig2: 0,
        wdtconfig3: 0,
        wdtconfig4: 0,
        wdtconfig5: 0,
        wdtfeed: 0,
        wdt_wkey: WDT_WKEY,
    }
}

/// A group on a chip on which the clock of the watchdog cannot be chosen.
fn group<T: TimerGroupInstance>(timer_group: T) -> TimerGroup<T> {
    let mut r = regs();
    let group = TimerGroup::new(timer_group, &mut r, None);
    assert_eq!(r, regs());
    group
}

#[test]
fn construction_selects_the_watchdog_clock() {
    let mut r = regs();
    let _tg = TimerGroup::new(TIMG0, &mut r, Some(1));
    let mut want = regs();
    want.wdtconfig0.wdt_use_xtal = true;
    assert_eq!(r, want);
    let _tg = TimerGroup::new(TIMG1, &mut r, Some(0));
    assert_eq!(r, regs());

    let mut r = regs();
    r.wdtconfig0.wdt_en = true;
    r.wdtconfig0.wdt_stg0 = 3;
    let _wdt: Wdt<TIMG1> = Wdt::new(&mut r, Some(1));
    assert!(r.wdtconfig0.wdt_use_xtal);
    assert!(r.wdtconfig0.wdt_en);
    assert_eq!(r.wdtconfig0.wdt_stg0, 3);
    let before = r;
    let _wdt: Wdt<TIMG0> = Wdt::new(&mut r, None);
    assert_eq!(r, before);
    let _wdt: Wdt<TIMG0> = Wdt::new(&mut r, Some(2));
    assert!(!r.wdtconfig0.wdt_use_xtal);
    let _wdt: Wdt<TIMG0> = Wdt::new(&mut r, Some(1));
    assert_eq!(r, before);
}

#[test]
fn group_has_two_timers() {
    let tg0 = group(TIMG0);
    let tg1 = group(TIMG1);
    assert_eq!((tg0.timer0.timer_group(), tg0.timer0.timer_number()), (0, 0));
    assert_eq!((tg0.timer1.timer_group(), tg0.timer1.timer_number()), (0, 1));
    assert_eq!((tg1.timer0.timer_group(), tg1.timer0.timer_number()), (1, 0));
    assert_eq!((tg1.timer1.timer_group(), tg1.timer1.timer_number()), (1, 1));
    assert_eq!(tg0.timer0.peripheral_interrupt(), Interrupt::TG0_T0_LEVEL);
    assert_eq!(tg0.timer1.peripheral_interrupt(), Interrupt::TG0_T1_LEVEL);
    assert_eq!(tg1.timer0.peripheral_interrupt(), Interrupt::TG1_T0_LEVEL);
    assert_eq!(tg1.timer1.peripheral_interrupt(), Interrupt::TG1_T1_LEVEL);
    assert_eq!(tg0.wdt.interrupt(), Interrupt::TG0_WDT_LEVEL);
    assert_eq!(tg1.wdt.interrupt(), Interrupt::TG1_WDT_LEVEL);
    assert_eq!(tg0.timer0.waker(), 0);
    assert_eq!(tg1.timer0.waker(), 1);
    assert_eq!(tg0.timer1.waker(), 2);
    assert_eq!(tg1.timer1.waker(), 3);
    let mut timer = tg1.timer1;
    let again = timer.reborrow();
    assert_eq!((again.timer_group(), again.timer_number()), (1, 1));
}

#[test]
fn timer_start_stop() {
    let tg = group(TIMG0);
    let mut r = regs();
    r.t1.config.increase = false;
    tg.timer1.start(&mut r);
    assert_eq!(r.t0, timer_regs());
    assert!(r.t1.config.en);
    assert!(r.t1.config.alarm_en);
    assert!(r.t1.config.increase);
    assert_eq!((r.t1.loadlo, r.t1.loadhi, r.t1.load), (0, 0, 1));
    assert!(tg.timer1.is_running(&r));
    assert!(!tg.timer0.is_running(&r));
    tg.timer1.stop(&mut r);
    assert!(!tg.timer1.is_counter_active(&r));
    assert!(r.t1.config.alarm_en);

    tg.timer0.set_counter_decrementing(&mut r, true);
    assert!(!r.t0.config.increase);
    tg.timer0.set_auto_reload(&mut r, false);
    assert!(!r.t0.config.autoreload);
    tg.timer0.set_alarm_active(&mut r, true);
    assert!(r.t0.config.alarm_en);
    tg.timer0.set_counter_active(&mut r, true);
    assert!(r.t0.config.en);
    r.t0.loadlo = 5;
    r.t0.loadhi = 6;
    tg.timer0.reset_counter(&mut r);
    assert_eq!((r.t0.loadlo, r.t0.loadhi, r.t0.load), (0, 0, 1));
    assert_eq!(tg.timer0.t(&r), r.t0);
}

#[test]
fn divider_settings() {
    let tg = group(TIMG0);
    let mut r = regs();
    for (bits, want) in [(0u16, 65536u32), (1, 2), (2, 2), (3, 3), (80, 80), (65535, 65535)] {
        r.t0.config.divider = bits;
        assert_eq!(tg.timer0.divider(&r), want);
    }
}

#[test]
fn tick_conversions() {
    // 80 MHz divided by 2: 40 ticks in a microsecond
    assert_eq!(timeout_to_ticks(1_000_000, 80_000_000, 2), Some(40_000_000));
    assert_eq!(timeout_to_ticks(3, 80_000_000, 2), Some(120));
    assert_eq!(timeout_to_ticks(1, 1_000_000, 3), Some(0));
    assert_eq!(timeout_to_ticks(u64::MAX, 80_000_000, 2), None);
    assert_eq!(timeout_to_ticks(u64::MAX, 80_000_000, 65536), None);
    assert_eq!(timeout_to_ticks(u64::MAX, 2, 2), Some(u64::MAX / 1_000_000));
    // a period of 25000 picoseconds
    assert_eq!(ticks_to_timeout(40_000_000, 80_000_000, 2), 1_000_000);
    assert_eq!(ticks_to_timeout(119, 80_000_000, 2), 2);
    assert_eq!(ticks_to_timeout(120, 80_000_000, 2), 3);
    // 3 ticks a second: the period is cut to 333333333333 picoseconds
    assert_eq!(ticks_to_timeout(3, 3, 1), 999_999);
}

#[test]
fn load_value_splits_ticks_in_two_words() {
    let tg = group(TIMG0);
    let mut r = regs();
    r.t0.config.divider = 2;
    assert_eq!(tg.timer0.load_value(&mut r, 1_000_000, 80_000_000), Ok(()));
    assert_eq!((r.t0.alarmlo, r.t0.alarmhi), (40_000_000, 0));
    assert_eq!(
        tg.timer0.load_value(&mut r, 1_000_000_000, 80_000_000),
        Ok(())
    );
    assert_eq!(40_000_000_000u64, (9 << 32) + 1_345_294_336);
    assert_eq!((r.t0.alarmlo, r.t0.alarmhi), (1_345_294_336, 9));

    let before = r;
    // the most microseconds whose ticks can be counted at this rate
    let most = u64::MAX / 40_000_000;
    assert_eq!(
        tg.timer0.load_value(&mut r, most + 1, 80_000_000),
        Err(Error::InvalidTimeout)
    );
    assert_eq!(r, before);
    assert_eq!(tg.timer0.load_value(&mut r, most, 80_000_000), Ok(()));
    assert_eq!(
        ((r.t0.alarmhi as u64) << 32) + r.t0.alarmlo as u64,
        most * 40
    );
    let before = r;
    assert_eq!(
        tg.timer0.load_value(&mut r, u64::MAX, 80_000_000),
        Err(Error::InvalidTimeout)
    );
    assert_eq!(r, before);
    assert_eq!(tg.timer1.load_value(&mut r, 25, 2_000_000), Ok(()));
    assert_eq!((r.t1.alarmlo, r.t1.alarmhi), (25, 0));
}

#[test]
fn now_reads_the_latched_counter() {
    let tg = group(TIMG1);
    let mut r = regs();
    r.t0.config.divider = 2;
    r.t0.lo = 1_345_294_336;
    r.t0.hi = 9;
    assert_eq!(tg.timer0.now(&mut r, 80_000_000), 1_000_000_000);
    assert!(!r.t0.update);
    r.t1.config.divider = 80;
    r.t1.lo = 7;
    assert_eq!(tg.timer1.now(&mut r, 80_000_000), 7);
}

#[test]
fn timer_interrupts() {
    let tg = group(TIMG0);
    let mut r = regs();
    tg.timer1.set_interrupt_enabled(&mut r, true);
    assert_eq!((r.int_ena_t0, r.int_ena_t1), (false, true));
    tg.timer0.set_interrupt_enabled(&mut r, true);
    assert_eq!(tg.timer1.handle_irq(&mut r), 2);
    assert_eq!((r.int_ena_t0, r.int_ena_t1), (true, false));
    r.int_raw_t1 = true;
    assert!(tg.timer1.is_interrupt_set(&r));
    assert!(!tg.timer0.is_interrupt_set(&r));

    // clearing arms the alarm again if the timer is periodic
    r.t1.config.autoreload = true;
    r.t1.config.alarm_en = false;
    tg.timer1.clear_interrupt(&mut r);
    assert_eq!((r.int_clr_t0, r.int_clr_t1), (false, true));
    assert!(r.t1.config.alarm_en);
    r.t0.config.autoreload = false;
    r.t0.config.alarm_en = true;
    tg.timer0.clear_interrupt(&mut r);
    assert_eq!((r.int_clr_t0, r.int_clr_t1), (true, false));
    assert!(!r.t0.config.alarm_en);
}

#[test]
fn clock_sources() {
    let mut r = regs();
    configure_src_clk(&mut r, true);
    assert!(r.t0.config.use_xtal && r.t1.config.use_xtal);
    configure_wdt_src_clk(&mut r, true);
    assert!(r.wdtconfig0.wdt_use_xtal);
    configure_src_clk(&mut r, false);
    assert!(!r.t0.config.use_xtal && !r.t1.config.use_xtal);
}

#[test]
fn watchdog_enable_disable_feed() {
    let mut tg = group(TIMG0);
    let mut r = regs();
    tg.wdt.enable(&mut r);
    assert_eq!(
        r.wdtconfig0,
        WdtConfig0 {
            wdt_en: true,
            wdt_flashboot_mod_en: true,
            wdt_stg0: 3,
            wdt_stg1: 0,
            wdt_stg2: 0,
            wdt_stg3: 0,
            wdt_cpu_reset_length: 7,
            wdt_sys_reset_length: 7,
            wdt_use_xtal: false,
            wdt_conf_update_en: true,
        }
    );
    assert_eq!(r.wdt_wkey, 0);
    tg.wdt.set_stage_action(&mut r, MwdtStage::Stage2, MwdtStageAction::ResetCpu);
    assert_eq!(r.wdtconfig0.wdt_stg2, 2);
    assert_eq!(r.wdtconfig0.wdt_stg0, 3);
    tg.wdt.set_stage_action(&mut r, MwdtStage::Stage0, MwdtStageAction::Interrupt);
    tg.wdt.set_stage_action(&mut r, MwdtStage::Stage1, MwdtStageAction::ResetSystem);
    tg.wdt.set_stage_action(&mut r, MwdtStage::Stage3, MwdtStageAction::Off);
    assert_eq!(
        (
            r.wdtconfig0.wdt_stg0,
            r.wdtconfig0.wdt_stg1,
            r.wdtconfig0.wdt_stg2,
            r.wdtconfig0.wdt_stg3
        ),
        (1, 3, 2, 0)
    );
    tg.wdt.feed(&mut r);
    assert_eq!(r.wdtfeed, 1);
    assert_eq!(r.wdt_wkey, 0);
    tg.wdt.set_write_protection(&mut r, false);
    assert_eq!(r.wdt_wkey, 0x50D8_3AA1);
    tg.wdt.disable(&mut r);
    assert_eq!(r.wdtconfig0, WdtConfig0::zero());
    assert_eq!(r.wdt_wkey, 0);
    tg.wdt.set_wdt_enabled(&mut r, true);
    assert!(r.wdtconfig0.wdt_en);
}

#[test]
fn watchdog_timeout_scaling() {
    assert_eq!(wdt_prescale(0), (1, 0));
    assert_eq!(wdt_prescale(400_000_000), (1, 400_000_000));
    assert_eq!(wdt_prescale(u32::MAX as u64), (1, u32::MAX));
    assert_eq!(wdt_prescale(1 << 32), (1, u32::MAX));
    assert_eq!(wdt_prescale((1 << 32) + 1), (2, (1 << 31) + 1));
    assert_eq!(wdt_prescale(10_000_000_000), (3, 3_333_333_334));
    assert_eq!(wdt_prescale(u64::MAX), (u16::MAX, u32::MAX));
    assert_eq!(wdt_prescale(65535 << 32), (65535, u32::MAX));

    let mut tg = group(TIMG1);
    let mut r = regs();
    tg.wdt.set_timeout(&mut r, MwdtStage::Stage0, 5_000_000, 80);
    assert_eq!(r.wdt_clk_prescale, 1);
    assert_eq!(r.wdtconfig2, 400_000_000);
    assert!(r.wdtconfig0.wdt_conf_update_en);
    assert_eq!(r.wdt_wkey, 0);
    tg.wdt.set_timeout(&mut r, MwdtStage::Stage3, 125_000_000, 80);
    assert_eq!(r.wdt_clk_prescale, 3);
    assert_eq!(r.wdtconfig5, 3_333_333_334);
    assert_eq!(r.wdtconfig2, 400_000_000);
    tg.wdt.set_timeout(&mut r, MwdtStage::Stage1, 1, 1);
    tg.wdt.set_timeout(&mut r, MwdtStage::Stage2, 2, 1);
    assert_eq!((r.wdtconfig3, r.wdtconfig4), (1, 2));
}

#[test]
fn event_task_matrix_numbers() {
    let tg0 = group(TIMG0);
    let tg1 = group(TIMG1);
    assert_eq!(tg0.timer0.on_alarm().id(), 48);
    assert_eq!(tg1.timer0.on_alarm().id(), 49);
    assert_eq!(tg0.timer1.cnt_start().id(), 88);
    assert_eq!(tg1.timer1.cnt_start().id(), 89);
    assert_eq!(tg1.timer0.alarm_start().id(), 91);
    assert_eq!(tg0.timer0.cnt_stop().id(), 92);
    assert_eq!(tg1.timer0.cnt_reload().id(), 95);
    assert_eq!(tg0.timer0.cnt_cap().id(), 96);
    assert_eq!(MwdtStageAction::ResetSystem.bits(), 3);
    assert_eq!(MwdtStage::Stage3.index(), 3);
}

#[test]
fn handler_steps_of_timer_and_watchdog() {
    let mut tg = group(TIMG1);
    let interrupt = Interrupt::TG1_T1_LEVEL;
    assert_eq!(
        tg.timer1.set_interrupt_handler(Cpu::ProCpu, true),
        vec![
            HandlerStep::Disable {
                core: Cpu::AppCpu,
                interrupt
            },
            HandlerStep::Bind { interrupt },
            HandlerStep::Enable { interrupt },
        ]
    );
    let interrupt = Interrupt::TG1_WDT_LEVEL;
    assert_eq!(
        tg.wdt.set_interrupt_handler(),
        vec![
            HandlerStep::Bind { interrupt },
            HandlerStep::Enable { interrupt },
        ]
    );
}
