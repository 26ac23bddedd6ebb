//! # Debug Assistant (ASSIST_DEBUG)
//!
//! ## Overview
//! Debug Assistant is an auxiliary module that features a set of functions to
//! help locate bugs and issues during software debugging. It includes
//! capabilities such as monitoring stack pointer (SP), monitoring memory
//! regions, and handling interrupts related to debugging.
//!
//! The driver works on the registers of the module as plain values: what it
//! writes is found in them afterwards, what the module reports is read from
//! them.

use crate::interrupt::{handler_steps, set_interrupt_handler, Cpu, HandlerStep, Interrupt};
use vstd::prelude::*;

verus! {

/// One bit for each monitor of a core. The monitor enable register, the raw
/// interrupt register, the interrupt enable register and the interrupt clear
/// register all have this shape.
#[derive(Debug, Clone, Copy, PartialEq, Eq, Structural)]
pub struct MonitorFlags {
    /// The stack pointer fell below the lower bound.
    pub sp_spill_min: bool,
    /// The stack pointer rose above the upper bound.
    pub sp_spill_max: bool,
    /// A read in region 0.
    pub area_dram0_0_rd: bool,
    /// A write in region 0.
    pub area_dram0_0_wr: bool,
    /// A read in region 1.
    pub area_dram0_1_rd: bool,
    /// A write in region 1.
    pub area_dram0_1_wr: bool,
}

impl MonitorFlags {
    /// No bit set: the value of each of these registers at reset.
    pub open spec fn spec_clear() -> MonitorFlags {
        MonitorFlags {
            sp_spill_min: false,
            sp_spill_max: false,
            area_dram0_0_rd: false,
            area_dram0_0_wr: false,
            area_dram0_1_rd: false,
            area_dram0_1_wr: false,
        }
    }

    /// No bit set.
    pub fn clear() -> (flags: MonitorFlags)
        ensures
            flags == MonitorFlags::spec_clear(),
    {
        MonitorFlags {
            sp_spill_min: false,
            sp_spill_max: false,
            area_dram0_0_rd: false,
            area_dram0_0_wr: false,
            area_dram0_1_rd: false,
            area_dram0_1_wr: false,
        }
    }
}

/// The registers of the module that belong to one core.
#[derive(Debug, Clone, Copy, PartialEq, Eq, Structural)]
pub struct CoreRegisters {
    /// Lower bound of the stack pointer.
    pub sp_min: u32,
    /// Upper bound of the stack pointer.
    pub sp_max: u32,
    /// The program counter at which the stack pointer left its bounds.
    pub sp_pc: u32,
    /// Lower bound of region 0.
    pub area_dram0_0_min: u32,
    /// Upper bound of region 0.
    pub area_dram0_0_max: u32,
    /// Lower bound of region 1.
    pub area_dram0_1_min: u32,
    /// Upper bound of region 1.
    pub area_dram0_1_max: u32,
    /// The program counter at which a monitored region was accessed.
    pub area_pc: u32,
    /// The monitors that are on.
    pub montr_ena: MonitorFlags,
    /// The monitors that have fired.
    pub intr_raw: MonitorFlags,
    /// The monitors that interrupt when they fire.
    pub intr_ena: MonitorFlags,
    /// What was last written to the interrupt clear register, in which a set
    /// bit clears the interrupt of its monitor.
    pub intr_clr: MonitorFlags,
}

impl CoreRegisters {
    /// Every register zero.
    pub open spec fn spec_reset() -> CoreRegisters {
        CoreRegisters {
            sp_min: 0,
            sp_max: 0,
            sp_pc: 0,
            area_dram0_0_min: 0,
            area_dram0_0_max: 0,
            area_dram0_1_min: 0,
            area_dram0_1_max: 0,
            area_pc: 0,
            montr_ena: MonitorFlags::spec_clear(),
            intr_raw: MonitorFlags::spec_clear(),
            intr_ena: MonitorFlags::spec_clear(),
            intr_clr: MonitorFlags::spec_clear(),
        }
    }

    /// The registers with the stack pointer monitor on between the given
    /// bounds: its two monitors on, their interrupts cleared and then enabled.
    pub open spec fn sp_monitor_enabled(self, lower_bound: u32, upper_bound: u32) -> CoreRegisters {
        CoreRegisters {
            sp_min: lower_bound,
            sp_max: upper_bound,
            montr_ena: MonitorFlags { sp_spill_min: true, sp_spill_max: true, ..self.montr_ena },
            intr_clr: MonitorFlags {
                sp_spill_min: true,
                sp_spill_max: true,
                ..MonitorFlags::spec_clear()
            },
            intr_ena: MonitorFlags { sp_spill_min: true, sp_spill_max: true, ..self.intr_ena },
            ..self
        }
    }

    /// The registers with the stack pointer monitor off: its interrupts
    /// disabled, then its two monitors off.
    pub open spec fn sp_monitor_disabled(self) -> CoreRegisters {
        CoreRegisters {
            intr_ena: MonitorFlags { sp_spill_min: false, sp_spill_max: false, ..self.intr_ena },
            montr_ena: MonitorFlags { sp_spill_min: false, sp_spill_max: false, ..self.montr_ena },
            ..self
        }
    }

    /// The registers after the interrupts of the stack pointer monitor, and
    /// no others, were asked to be cleared.
    pub open spec fn sp_monitor_interrupt_cleared(self) -> CoreRegisters {
        CoreRegisters {
            intr_clr: MonitorFlags {
                sp_spill_min: true,
                sp_spill_max: true,
                ..MonitorFlags::spec_clear()
            },
            ..self
        }
    }

    /// The registers with the monitor of region 0 set to the given bounds,
    /// watching reads and writes as asked, its interrupts cleared and then
    /// enabled.
    pub open spec fn region0_monitor_enabled(
        self,
        lower_bound: u32,
        upper_bound: u32,
        reads: bool,
        writes: bool,
    ) -> CoreRegisters {
        CoreRegisters {
            area_dram0_0_min: lower_bound,
            area_dram0_0_max: upper_bound,
            montr_ena: MonitorFlags {
                area_dram0_0_rd: reads,
                area_dram0_0_wr: writes,
                ..self.montr_ena
            },
            intr_clr: MonitorFlags {
                area_dram0_0_rd: true,
                area_dram0_0_wr: true,
                ..MonitorFlags::spec_clear()
            },
            intr_ena: MonitorFlags {
                area_dram0_0_rd: true,
                area_dram0_0_wr: true,
                ..self.intr_ena
            },
            ..self
        }
    }

    /// The registers with the monitor of region 0 off.
    pub open spec fn region0_monitor_disabled(self) -> CoreRegisters {
        CoreRegisters {
            intr_ena: MonitorFlags {
                area_dram0_0_rd: false,
                area_dram0_0_wr: false,
                ..self.intr_ena
            },
            montr_ena: MonitorFlags {
                area_dram0_0_rd: false,
                area_dram0_0_wr: false,
                ..self.montr_ena
            },
            ..self
        }
    }

    /// The registers after the interrupts of the monitor of region 0, and no
    /// others, were asked to be cleared.
    pub open spec fn region0_monitor_interrupt_cleared(self) -> CoreRegisters {
        CoreRegisters {
            intr_clr: MonitorFlags {
                area_dram0_0_rd: true,
                area_dram0_0_wr: true,
                ..MonitorFlags::spec_clear()
            },
            ..self
        }
    }

    /// The registers with the monitor of region 1 set to the given bounds,
    /// watching reads and writes as asked, its interrupts cleared and then
    /// enabled.
    pub open spec fn region1_monitor_enabled(
        self,
        lower_bound: u32,
        upper_bound: u32,
        reads: bool,
        writes: bool,
    ) -> CoreRegisters {
        CoreRegisters {
            area_dram0_1_min: lower_bound,
            area_dram0_1_max: upper_bound,
            montr_ena: MonitorFlags {
                area_dram0_1_rd: reads,
                area_dram0_1_wr: writes,
                ..self.montr_ena
            },
            intr_clr: MonitorFlags {
                area_dram0_1_rd: true,
                area_dram0_1_wr: true,
                ..MonitorFlags::spec_clear()
            },
            intr_ena: MonitorFlags {
                area_dram0_1_rd: true,
                area_dram0_1_wr: true,
                ..self.intr_ena
            },
            ..self
        }
    }

    /// The registers with the monitor of region 1 off.
    pub open spec fn region1_monitor_disabled(self) -> CoreRegisters {
        CoreRegisters {
            intr_ena: MonitorFlags {
                area_dram0_1_rd: false,
                area_dram0_1_wr: false,
                ..self.intr_ena
            },
            montr_ena: MonitorFlags {
                area_dram0_1_rd: false,
                area_dram0_1_wr: false,
                ..self.montr_ena
            },
            ..self
        }
    }

    /// The registers after the interrupts of the monitor of region 1, and no
    /// others, were asked to be cleared.
    pub open spec fn region1_monitor_interrupt_cleared(self) -> CoreRegisters {
        CoreRegisters {
            intr_clr: MonitorFlags {
                area_dram0_1_rd: true,
                area_dram0_1_wr: true,
                ..MonitorFlags::spec_clear()
            },
            ..self
        }
    }

    /// Whether the stack pointer monitor has fired.
    pub open spec fn sp_monitor_interrupt_set(self) -> bool {
        self.intr_raw.sp_spill_max || self.intr_raw.sp_spill_min
    }

    /// Whether the monitor of region 0 has fired.
    pub open spec fn region0_monitor_interrupt_set(self) -> bool {
        self.intr_raw.area_dram0_0_rd || self.intr_raw.area_dram0_0_wr
    }

    /// Whether the monitor of region 1 has fired.
    pub open spec fn region1_monitor_interrupt_set(self) -> bool {
        self.intr_raw.area_dram0_1_rd || self.intr_raw.area_dram0_1_wr
    }

    /// Every register zero.
    pub fn reset() -> (regs: CoreRegisters)
        ensures
            regs == CoreRegisters::spec_reset(),
    {
        CoreRegisters {
            sp_min: 0,
            sp_max: 0,
            sp_pc: 0,
            area_dram0_0_min: 0,
            area_dram0_0_max: 0,
            area_dram0_1_min: 0,
            area_dram0_1_max: 0,
            area_pc: 0,
            montr_ena: MonitorFlags::clear(),
            intr_raw: MonitorFlags::clear(),
            intr_ena: MonitorFlags::clear(),
            intr_clr: MonitorFlags::clear(),
        }
    }

    fn clear_sp_monitor_interrupt(&mut self)
        ensures
            *final(self) == old(self).sp_monitor_interrupt_cleared(),
    {
        let mut w = MonitorFlags::clear();
        w.sp_spill_max = true;
        w.sp_spill_min = true;
        self.intr_clr = w;
    }

    fn enable_sp_monitor(&mut self, lower_bound: u32, upper_bound: u32)
        ensures
            *final(self) == old(self).sp_monitor_enabled(lower_bound, upper_bound),
    {
        self.sp_min = lower_bound;
        self.sp_max = upper_bound;

        self.montr_ena.sp_spill_min = true;
        self.montr_ena.sp_spill_max = true;

        self.clear_sp_monitor_interrupt();

        self.intr_ena.sp_spill_max = true;
        self.intr_ena.sp_spill_min = true;
    }

    fn disable_sp_monitor(&mut self)
        ensures
            *final(self) == old(self).sp_monitor_disabled(),
    {
        self.intr_ena.sp_spill_max = false;
        self.intr_ena.sp_spill_min = false;

        self.montr_ena.sp_spill_min = false;
        self.montr_ena.sp_spill_max = false;
    }

    fn is_sp_monitor_interrupt_set(&self) -> (set: bool)
        ensures
            set == self.sp_monitor_interrupt_set(),
    {
        self.intr_raw.sp_spill_max || self.intr_raw.sp_spill_min
    }

    fn clear_region0_monitor_interrupt(&mut self)
        ensures
            *final(self) == old(self).region0_monitor_interrupt_cleared(),
    {
        let mut w = MonitorFlags::clear();
        w.area_dram0_0_rd = true;
        w.area_dram0_0_wr = true;
        self.intr_clr = w;
    }

    fn enable_region0_monitor(
        &mut self,
        lower_bound: u32,
        upper_bound: u32,
        reads: bool,
        writes: bool,
    )
        ensures
            *final(self) == old(self).region0_monitor_enabled(
                lower_bound,
                upper_bound,
                reads,
                writes,
            ),
    {
        self.area_dram0_0_min = lower_bound;
        self.area_dram0_0_max = upper_bound;

        self.montr_ena.area_dram0_0_rd = reads;
        self.montr_ena.area_dram0_0_wr = writes;

        self.clear_region0_monitor_interrupt();

        self.intr_ena.area_dram0_0_rd = true;
        self.intr_ena.area_dram0_0_wr = true;
    }

    fn disable_region0_monitor(&mut self)
        ensures
            *final(self) == old(self).region0_monitor_disabled(),
    {
        self.intr_ena.area_dram0_0_rd = false;
        self.intr_ena.area_dram0_0_wr = false;

        self.montr_ena.area_dram0_0_rd = false;
        self.montr_ena.area_dram0_0_wr = false;
    }

    fn is_region0_monitor_interrupt_set(&self) -> (set: bool)
        ensures
            set == self.region0_monitor_interrupt_set(),
    {
        self.intr_raw.area_dram0_0_rd || self.intr_raw.area_dram0_0_wr
    }

    fn clear_region1_monitor_interrupt(&mut self)
        ensures
            *final(self) == old(self).region1_monitor_interrupt_cleared(),
    {
        let mut w = MonitorFlags::clear();
        w.area_dram0_1_rd = true;
        w.area_dram0_1_wr = true;
        self.intr_clr = w;
    }

    fn enable_region1_monitor(
        &mut self,
        lower_bound: u32,
        upper_bound: u32,
        reads: bool,
        writes: bool,
    )
        ensures
            *final(self) == old(self).region1_monitor_enabled(
                lower_bound,
                upper_bound,
                reads,
                writes,
            ),
    {
        self.area_dram0_1_min = lower_bound;
        self.area_dram0_1_max = upper_bound;

        self.montr_ena.area_dram0_1_rd = reads;
        self.montr_ena.area_dram0_1_wr = writes;

        self.clear_region1_monitor_interrupt();

        self.intr_ena.area_dram0_1_rd = true;
        self.intr_ena.area_dram0_1_wr = true;
    }

    fn disable_region1_monitor(&mut self)
        ensures
            *final(self) == old(self).region1_monitor_disabled(),
    {
        self.intr_ena.area_dram0_1_rd = false;
        self.intr_ena.area_dram0_1_wr = false;

        self.montr_ena.area_dram0_1_rd = false;
        self.montr_ena.area_dram0_1_wr = false;
    }

    fn is_region1_monitor_interrupt_set(&self) -> (set: bool)
        ensures
            set == self.region1_monitor_interrupt_set(),
    {
        self.intr_raw.area_dram0_1_rd || self.intr_raw.area_dram0_1_wr
    }
}

/// The registers of the module.
#[derive(Debug, Clone, Copy, PartialEq, Eq, Structural)]
pub struct RegisterBlock {
    /// Those of the main core.
    pub core_0: CoreRegisters,
    /// Those of the secondary core.
    pub core_1: CoreRegisters,
}

/// The debug assist driver instance.
pub struct DebugAssist {
    debug_assist: RegisterBlock,
}

impl View for DebugAssist {
    type V = RegisterBlock;

    closed spec fn view(&self) -> RegisterBlock {
        self.debug_assist
    }
}

impl DebugAssist {
    /// Create a new instance in blocking mode. The module is on from boot,
    /// so the registers are taken as they are.
    pub fn new(debug_assist: RegisterBlock) -> (driver: Self)
        ensures
            driver@ == debug_assist,
    {
        // NOTE: We should enable the debug assist, however, it's always enabled in ROM
        //       code already.
        DebugAssist { debug_assist }
    }

    /// The registers of the module.
    pub fn regs(&self) -> (regs: &RegisterBlock)
        ensures
            *regs == self@,
    {
        &self.debug_assist
    }

    /// Takes what the module reports of the main core: the monitors that
    /// have fired and the program counters that it recorded.
    pub fn observe(&mut self, intr_raw: MonitorFlags, sp_pc: u32, area_pc: u32)
        ensures
            final(self)@ == (RegisterBlock {
                core_0: CoreRegisters { intr_raw, sp_pc, area_pc, ..old(self)@.core_0 },
                ..old(self)@
            }),
    {
        self.debug_assist.core_0.intr_raw = intr_raw;
        self.debug_assist.core_0.sp_pc = sp_pc;
        self.debug_assist.core_0.area_pc = area_pc;
    }

    /// Takes what the module reports of the secondary core: the monitors
    /// that have fired and the program counters that it recorded.
    pub fn observe_core1(&mut self, intr_raw: MonitorFlags, sp_pc: u32, area_pc: u32)
        ensures
            final(self)@ == (RegisterBlock {
                core_1: CoreRegisters { intr_raw, sp_pc, area_pc, ..old(self)@.core_1 },
                ..old(self)@
            }),
    {
        self.debug_assist.core_1.intr_raw = intr_raw;
        self.debug_assist.core_1.sp_pc = sp_pc;
        self.debug_assist.core_1.area_pc = area_pc;
    }

    /// Register an interrupt handler for the Debug Assist module: the steps
    /// that do so from the core `current`.
    ///
    /// Note that this will replace any previously registered interrupt
    /// handlers.
    pub fn set_interrupt_handler(&mut self, current: Cpu, multi_core: bool) -> (steps: Vec<
        HandlerStep,
    >)
        ensures
            steps@ == handler_steps(Interrupt::ASSIST_DEBUG, current, multi_core),
            final(self)@ == old(self)@,
    {
        set_interrupt_handler(Interrupt::ASSIST_DEBUG, current, multi_core)
    }

    /// Enable SP monitoring on main core. When the SP exceeds the
    /// `lower_bound` or `upper_bound` threshold, the module will record the PC
    /// pointer and generate an interrupt.
    pub fn enable_sp_monitor(&mut self, lower_bound: u32, upper_bound: u32)
        ensures
            final(self)@ == (RegisterBlock {
                core_0: old(self)@.core_0.sp_monitor_enabled(lower_bound, upper_bound),
                ..old(self)@
            }),
    {
        self.debug_assist.core_0.enable_sp_monitor(lower_bound, upper_bound);
    }

    /// Disable SP monitoring on main core.
    pub fn disable_sp_monitor(&mut self)
        ensures
            final(self)@ == (RegisterBlock {
                core_0: old(self)@.core_0.sp_monitor_disabled(),
                ..old(self)@
            }),
    {
        self.debug_assist.core_0.disable_sp_monitor();
    }

    /// Clear SP monitoring interrupt on main core.
    pub fn clear_sp_monitor_interrupt(&mut self)
        ensures
            final(self)@ == (RegisterBlock {
                core_0: old(self)@.core_0.sp_monitor_interrupt_cleared(),
                ..old(self)@
            }),
    {
        self.debug_assist.core_0.clear_sp_monitor_interrupt();
    }

    /// Check, if SP monitoring interrupt is set on main core.
    pub fn is_sp_monitor_interrupt_set(&self) -> (set: bool)
        ensures
            set == self@.core_0.sp_monitor_interrupt_set(),
    {
        self.debug_assist.core_0.is_sp_monitor_interrupt_set()
    }

    /// Get SP monitoring PC value on main core.
    pub fn sp_monitor_pc(&self) -> (pc: u32)
        ensures
            pc == self@.core_0.sp_pc,
    {
        self.debug_assist.core_0.sp_pc
    }

    /// Enable SP monitoring on secondary core. When the SP exceeds the
    /// `lower_bound` or `upper_bound` threshold, the module will record the PC
    /// pointer and generate an interrupt.
    pub fn enable_core1_sp_monitor(&mut self, lower_bound: u32, upper_bound: u32)
        ensures
            final(self)@ == (RegisterBlock {
                core_1: old(self)@.core_1.sp_monitor_enabled(lower_bound, upper_bound),
                ..old(self)@
            }),
    {
        self.debug_assist.core_1.enable_sp_monitor(lower_bound, upper_bound);
    }

    /// Disable SP monitoring on secondary core.
    pub fn disable_core1_sp_monitor(&mut self)
        ensures
            final(self)@ == (RegisterBlock {
                core_1: old(self)@.core_1.sp_monitor_disabled(),
                ..old(self)@
            }),
    {
        self.debug_assist.core_1.disable_sp_monitor();
    }

    /// Clear SP monitoring interrupt on secondary core.
    pub fn clear_core1_sp_monitor_interrupt(&mut self)
        ensures
            final(self)@ == (RegisterBlock {
                core_1: old(self)@.core_1.sp_monitor_interrupt_cleared(),
                ..old(self)@
            }),
    {
        self.debug_assist.core_1.clear_sp_monitor_interrupt();
    }

    /// Check, if SP monitoring interrupt is set on secondary core.
    pub fn is_core1_sp_monitor_interrupt_set(&self) -> (set: bool)
        ensures
            set == self@.core_1.sp_monitor_interrupt_set(),
    {
        self.debug_assist.core_1.is_sp_monitor_interrupt_set()
    }

    /// Get SP monitoring PC value on secondary core.
    pub fn core1_sp_monitor_pc(&self) -> (pc: u32)
        ensures
            pc == self@.core_1.sp_pc,
    {
        self.debug_assist.core_1.sp_pc
    }

    /// Enable region monitoring of read/write performed by the main CPU in a
    /// certain memory region0. Whenever the bus reads or writes in the
    /// specified memory region, an interrupt will be triggered. Two memory
    /// regions (region0, region1) can be monitored at the same time.
    pub fn enable_region0_monitor(
        &mut self,
        lower_bound: u32,
        upper_bound: u32,
        reads: bool,
        writes: bool,
    )
        ensures
            final(self)@ == (RegisterBlock {
                core_0: old(self)@.core_0.region0_monitor_enabled(
                    lower_bound,
                    upper_bound,
                    reads,
                    writes,
                ),
                ..old(self)@
            }),
    {
        self.debug_assist.core_0.enable_region0_monitor(lower_bound, upper_bound, reads, writes);
    }

    /// Disable region0 monitoring on main core.
    pub fn disable_region0_monitor(&mut self)
        ensures
            final(self)@ == (RegisterBlock {
                core_0: old(self)@.core_0.region0_monitor_disabled(),
                ..old(self)@
            }),
    {
        self.debug_assist.core_0.disable_region0_monitor();
    }

    /// Clear region0 monitoring interrupt on main core.
    pub fn clear_region0_monitor_interrupt(&mut self)
        ensures
            final(self)@ == (RegisterBlock {
                core_0: old(self)@.core_0.region0_monitor_interrupt_cleared(),
                ..old(self)@
            }),
    {
        self.debug_assist.core_0.clear_region0_monitor_interrupt();
    }

    /// Check, if region0 monitoring interrupt is set on main core.
    pub fn is_region0_monitor_interrupt_set(&self) -> (set: bool)
        ensures
            set == self@.core_0.region0_monitor_interrupt_set(),
    {
        self.debug_assist.core_0.is_region0_monitor_interrupt_set()
    }

    /// Enable region monitoring of read/write performed by the main CPU in a
    /// certain memory region1. Whenever the bus reads or writes in the
    /// specified memory region, an interrupt will be triggered.
    pub fn enable_region1_monitor(
        &mut self,
        lower_bound: u32,
        upper_bound: u32,
        reads: bool,
        writes: bool,
    )
        ensures
            final(self)@ == (RegisterBlock {
                core_0: old(self)@.core_0.region1_monitor_enabled(
                    lower_bound,
                    upper_bound,
                    reads,
                    writes,
                ),
                ..old(self)@
            }),
    {
        self.debug_assist.core_0.enable_region1_monitor(lower_bound, upper_bound, reads, writes);
    }

    /// Disable region1 monitoring on main core.
    pub fn disable_region1_monitor(&mut self)
        ensures
            final(self)@ == (RegisterBlock {
                core_0: old(self)@.core_0.region1_monitor_disabled(),
                ..old(self)@
            }),
    {
        self.debug_assist.core_0.disable_region1_monitor();
    }

    /// Clear region1 monitoring interrupt on main core.
    pub fn clear_region1_monitor_interrupt(&mut self)
        ensures
            final(self)@ == (RegisterBlock {
                core_0: old(self)@.core_0.region1_monitor_interrupt_cleared(),
                ..old(self)@
            }),
    {
        self.debug_assist.core_0.clear_region1_monitor_interrupt();
    }

    /// Check, if region1 monitoring interrupt is set on main core.
    pub fn is_region1_monitor_interrupt_set(&self) -> (set: bool)
        ensures
            set == self@.core_0.region1_monitor_interrupt_set(),
    {
        self.debug_assist.core_0.is_region1_monitor_interrupt_set()
    }

    /// Get region monitoring PC value on main core.
    pub fn region_monitor_pc(&self) -> (pc: u32)
        ensures
            pc == self@.core_0.area_pc,
    {
        self.debug_assist.core_0.area_pc
    }

    /// Enable region monitoring of read/write performed by the secondary CPU in
    /// a certain memory region0. Whenever the bus reads or writes in the
    /// specified memory region, an interrupt will be triggered.
    pub fn enable_core1_region0_monitor(
        &mut self,
        lower_bound: u32,
        upper_bound: u32,
        reads: bool,
        writes: bool,
    )
        ensures
            final(self)@ == (RegisterBlock {
                core_1: old(self)@.core_1.region0_monitor_enabled(
                    lower_bound,
                    upper_bound,
                    reads,
                    writes,
                ),
                ..old(self)@
            }),
    {
        self.debug_assist.core_1.enable_region0_monitor(lower_bound, upper_bound, reads, writes);
    }

    /// Disable region0 monitoring on secondary core.
    pub fn disable_core1_region0_monitor(&mut self)
        ensures
            final(self)@ == (RegisterBlock {
                core_1: old(self)@.core_1.region0_monitor_disabled(),
                ..old(self)@
            }),
    {
        self.debug_assist.core_1.disable_region0_monitor();
    }

    /// Clear region0 monitoring interrupt on secondary core.
    pub fn clear_core1_region0_monitor_interrupt(&mut self)
        ensures
            final(self)@ == (RegisterBlock {
                core_1: old(self)@.core_1.region0_monitor_interrupt_cleared(),
                ..old(self)@
            }),
    {
        self.debug_assist.core_1.clear_region0_monitor_interrupt();
    }

    /// Check, if region0 monitoring interrupt is set on secondary core.
    pub fn is_core1_region0_monitor_interrupt_set(&self) -> (set: bool)
        ensures
            set == self@.core_1.region0_monitor_interrupt_set(),
    {
        self.debug_assist.core_1.is_region0_monitor_interrupt_set()
    }

    /// Enable region monitoring of read/write performed by the secondary CPU in
    /// a certain memory region1. Whenever the bus reads or writes in the
    /// specified memory region, an interrupt will be triggered.
    pub fn enable_core1_region1_monitor(
        &mut self,
        lower_bound: u32,
        upper_bound: u32,
        reads: bool,
        writes: bool,
    )
        ensures
            final(self)@ == (RegisterBlock {
                core_1: old(self)@.core_1.region1_monitor_enabled(
                    lower_bound,
                    upper_bound,
                    reads,
                    writes,
                ),
                ..old(self)@
            }),
    {
        self.debug_assist.core_1.enable_region1_monitor(lower_bound, upper_bound, reads, writes);
    }

    /// Disable region1 monitoring on secondary core.
    pub fn disable_core1_region1_monitor(&mut self)
        ensures
            final(self)@ == (RegisterBlock {
                core_1: old(self)@.core_1.region1_monitor_disabled(),
                ..old(self)@
            }),
    {
        self.debug_assist.core_1.disable_region1_monitor();
    }

    /// Clear region1 monitoring interrupt on secondary core.
    pub fn clear_core1_region1_monitor_interrupt(&mut self)
        ensures
            final(self)@ == (RegisterBlock {
                core_1: old(self)@.core_1.region1_monitor_interrupt_cleared(),
                ..old(self)@
            }),
    {
        self.debug_assist.core_1.clear_region1_monitor_interrupt();
    }

    /// Check, if region1 monitoring interrupt is set on secondary core.
    pub fn is_core1_region1_monitor_interrupt_set(&self) -> (set: bool)
        ensures
            set == self@.core_1.region1_monitor_interrupt_set(),
    {
        self.debug_assist.core_1.is_region1_monitor_interrupt_set()
    }

    /// Get region monitoring PC value on secondary core.
    pub fn core1_region_monitor_pc(&self) -> (pc: u32)
        ensures
            pc == self@.core_1.area_pc,
    {
        self.debug_assist.core_1.area_pc
    }
}

} // verus!
