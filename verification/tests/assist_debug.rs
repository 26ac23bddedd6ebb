use esp_preempt::assist_debug::{CoreRegisters, DebugAssist, MonitorFlags, RegisterBlock};

fn fresh() -> DebugAssist {
    DebugAssist::new(RegisterBlock {
        core_0: CoreRegisters::reset(),
        core_1: CoreRegisters::reset(),
    })
}

fn flags(sp: bool, r0: bool, r1: bool) -> MonitorFlags {
    MonitorFlags {
        sp_spill_min: sp,
        sp_spill_max: sp,
        area_dram0_0_rd: r0,
        area_dram0_0_wr: r0,
        area_dram0_1_rd: r1,
        area_dram0_1_wr: r1,
    }
}

#[test]
fn sp_monitor_enable_disable() {
    let mut da = fresh();
    da.enable_sp_monitor(0x3fc8_0000, 0x3fc8_4000);
    let core = da.regs().core_0;
    assert_eq!(core.sp_min, 0x3fc8_0000);
    assert_eq!(core.sp_max, 0x3fc8_4000);
    assert_eq!(core.montr_ena, flags(true, false, false));
    assert_eq!(core.intr_ena, flags(true, false, false));
    assert_eq!(core.intr_clr, flags(true, false, false));
    assert_eq!(da.regs().core_1, CoreRegisters::reset());

    da.disable_sp_monitor();
    let core = da.regs().core_0;
    assert_eq!(core.montr_ena, MonitorFlags::clear());
    assert_eq!(core.intr_ena, MonitorFlags::clear());
    assert_eq!(core.sp_min, 0x3fc8_0000);
    assert_eq!(core.sp_max, 0x3fc8_4000);
}

#[test]
fn monitors_do_not_disturb_each_other() {
    let mut da = fresh();
    da.enable_sp_monitor(1, 2);
    da.enable_region0_monitor(0x10, 0x20, true, false);
    da.enable_region1_monitor(0x30, 0x40, false, true);
    let core = da.regs().core_0;
    assert_eq!(
        core.montr_ena,
        MonitorFlags {
            sp_spill_min: true,
            sp_spill_max: true,
            area_dram0_0_rd: true,
            area_dram0_0_wr: false,
            area_dram0_1_rd: false,
            area_dram0_1_wr: true,
        }
    );
    assert_eq!(core.intr_ena, flags(true, true, true));
    // the clear register holds the last request only
    assert_eq!(core.intr_clr, flags(false, false, true));
    assert_eq!(
        (core.area_dram0_0_min, core.area_dram0_0_max),
        (0x10, 0x20)
    );
    assert_eq!(
        (core.area_dram0_1_min, core.area_dram0_1_max),
        (0x30, 0x40)
    );

    da.disable_region0_monitor();
    assert_eq!(da.regs().core_0.intr_ena, flags(true, false, true));
    assert_eq!(
        da.regs().core_0.montr_ena,
        MonitorFlags {
            sp_spill_min: true,
            sp_spill_max: true,
            area_dram0_0_rd: false,
            area_dram0_0_wr: false,
            area_dram0_1_rd: false,
            area_dram0_1_wr: true,
        }
    );
    da.disable_region1_monitor();
    assert_eq!(da.regs().core_0.intr_ena, flags(true, false, false));
    assert_eq!(da.regs().core_0.montr_ena, flags(true, false, false));
    da.clear_region0_monitor_interrupt();
    assert_eq!(da.regs().core_0.intr_clr, flags(false, true, false));
    da.clear_region1_monitor_interrupt();
    assert_eq!(da.regs().core_0.intr_clr, flags(false, false, true));
    da.clear_sp_monitor_interrupt();
    assert_eq!(da.regs().core_0.intr_clr, flags(true, false, false));
}

#[test]
fn interrupt_status_and_program_counters() {
    let mut da = fresh();
    assert!(!da.is_sp_monitor_interrupt_set());
    assert!(!da.is_region0_monitor_interrupt_set());
    assert!(!da.is_region1_monitor_interrupt_set());
    da.observe(
        MonitorFlags {
            sp_spill_min: true,
            ..MonitorFlags::clear()
        },
        0x4200_0010,
        0x4200_0020,
    );
    assert!(da.is_sp_monitor_interrupt_set());
    assert!(!da.is_region0_monitor_interrupt_set());
    assert_eq!(da.sp_monitor_pc(), 0x4200_0010);
    assert_eq!(da.region_monitor_pc(), 0x4200_0020);
    da.observe(
        MonitorFlags {
            area_dram0_0_wr: true,
            area_dram0_1_rd: true,
            ..MonitorFlags::clear()
        },
        0,
        0,
    );
    assert!(!da.is_sp_monitor_interrupt_set());
    assert!(da.is_region0_monitor_interrupt_set());
    assert!(da.is_region1_monitor_interrupt_set());
    assert!(!da.is_core1_sp_monitor_interrupt_set());
}

#[test]
fn secondary_core_has_its_own_registers() {
    let mut da = fresh();
    da.enable_core1_sp_monitor(5, 6);
    da.enable_core1_region0_monitor(7, 8, true, true);
    da.enable_core1_region1_monitor(9, 10, false, false);
    assert_eq!(da.regs().core_0, CoreRegisters::reset());
    let core = da.regs().core_1;
    assert_eq!((core.sp_min, core.sp_max), (5, 6));
    assert_eq!(core.montr_ena, flags(true, true, false));
    assert_eq!(core.intr_ena, flags(true, true, true));

    da.observe_core1(flags(true, false, true), 0x11, 0x22);
    assert!(da.is_core1_sp_monitor_interrupt_set());
    assert!(!da.is_core1_region0_monitor_interrupt_set());
    assert!(da.is_core1_region1_monitor_interrupt_set());
    assert_eq!(da.core1_sp_monitor_pc(), 0x11);
    assert_eq!(da.core1_region_monitor_pc(), 0x22);

    da.clear_core1_sp_monitor_interrupt();
    assert_eq!(da.regs().core_1.intr_clr, flags(true, false, false));
    da.clear_core1_region0_monitor_interrupt();
    assert_eq!(da.regs().core_1.intr_clr, flags(false, true, false));
    da.clear_core1_region1_monitor_interrupt();
    assert_eq!(da.regs().core_1.intr_clr, flags(false, false, true));
    da.disable_core1_sp_monitor();
    da.disable_core1_region0_monitor();
    da.disable_core1_region1_monitor();
    assert_eq!(da.regs().core_1.montr_ena, MonitorFlags::clear());
    assert_eq!(da.regs().core_1.intr_ena, MonitorFlags::clear());
    assert_eq!(da.regs().core_0, CoreRegisters::reset());
}
