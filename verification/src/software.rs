//! # Software Interrupts
//!
//! The [`SoftwareInterruptControl`] struct gives access to the available
//! software interrupts.
//!
//! The [`SoftwareInterrupt`] struct allows raising or resetting software
//! interrupts using the [`raise()`][SoftwareInterrupt::raise] and
//! [`reset()`][SoftwareInterrupt::reset] methods.

use crate::interrupt::{handler_steps, set_interrupt_handler, Cpu, HandlerStep, Interrupt};
use vstd::prelude::*;

verus! {

/// The registers through which a core interrupts itself or another: one
/// bit for each of the four software interrupts.
#[derive(Debug, Clone, Copy, PartialEq, Eq, Structural)]
pub struct CpuInterrupts {
    /// Software interrupt 0 is raised.
    pub cpu_intr_from_cpu_0: bool,
    /// Software interrupt 1 is raised.
    pub cpu_intr_from_cpu_1: bool,
    /// Software interrupt 2 is raised.
    pub cpu_intr_from_cpu_2: bool,
    /// Software interrupt 3 is raised.
    pub cpu_intr_from_cpu_3: bool,
}

impl CpuInterrupts {
    /// The registers with the bit of software interrupt `num` set to
    /// `raised`.
    pub open spec fn with(self, num: u8, raised: bool) -> CpuInterrupts {
        if num == 0 {
            CpuInterrupts { cpu_intr_from_cpu_0: raised, ..self }
        } else if num == 1 {
            CpuInterrupts { cpu_intr_from_cpu_1: raised, ..self }
        } else if num == 2 {
            CpuInterrupts { cpu_intr_from_cpu_2: raised, ..self }
        } else {
            CpuInterrupts { cpu_intr_from_cpu_3: raised, ..self }
        }
    }

    /// Whether software interrupt `num` is raised.
    pub open spec fn raised(self, num: u8) -> bool {
        if num == 0 {
            self.cpu_intr_from_cpu_0
        } else if num == 1 {
            self.cpu_intr_from_cpu_1
        } else if num == 2 {
            self.cpu_intr_from_cpu_2
        } else {
            self.cpu_intr_from_cpu_3
        }
    }
}

/// The interrupt that software interrupt `num` arrives as.
pub open spec fn software_interrupt_source(num: u8) -> Interrupt {
    if num == 0 {
        Interrupt::FROM_CPU_INTR0
    } else if num == 1 {
        Interrupt::FROM_CPU_INTR1
    } else if num == 2 {
        Interrupt::FROM_CPU_INTR2
    } else {
        Interrupt::FROM_CPU_INTR3
    }
}

/// A software interrupt can be triggered by software.
#[non_exhaustive]
pub struct SoftwareInterrupt<const NUM: u8> {
    _private: (),
}

impl<const NUM: u8> SoftwareInterrupt<NUM> {
    /// Creates a new peripheral reference with a shorter lifetime.
    ///
    /// Use this method if you would like to keep working with the peripheral
    /// after you dropped the driver that consumes this.
    pub fn reborrow(&mut self) -> (interrupt: SoftwareInterrupt<NUM>) {
        SoftwareInterrupt { _private: () }
    }

    /// The interrupt whose handler serves this software interrupt.
    pub fn interrupt(&self) -> (interrupt: Interrupt)
        requires
            NUM < 4,
        ensures
            interrupt == software_interrupt_source(NUM),
    {
        match NUM {
            0 => Interrupt::FROM_CPU_INTR0,
            1 => Interrupt::FROM_CPU_INTR1,
            2 => Interrupt::FROM_CPU_INTR2,
            _ => Interrupt::FROM_CPU_INTR3,
        }
    }

    /// Sets the interrupt handler for this software-interrupt: the steps
    /// that do so from the core `current`.
    pub fn set_interrupt_handler(&mut self, current: Cpu, multi_core: bool) -> (steps: Vec<
        HandlerStep,
    >)
        requires
            NUM < 4,
        ensures
            steps@ == handler_steps(software_interrupt_source(NUM), current, multi_core),
    {
        let interrupt = self.interrupt();
        set_interrupt_handler(interrupt, current, multi_core)
    }

    /// Trigger this software-interrupt
    pub fn raise(&self, system: &mut CpuInterrupts)
        requires
            NUM < 4,
        ensures
            *final(system) == old(system).with(NUM, true),
            final(system).raised(NUM),
    {
        match NUM {
            0 => {
                system.cpu_intr_from_cpu_0 = true;
            },
            1 => {
                system.cpu_intr_from_cpu_1 = true;
            },
            2 => {
                system.cpu_intr_from_cpu_2 = true;
            },
            _ => {
                system.cpu_intr_from_cpu_3 = true;
            },
        }
    }

    /// Resets this software-interrupt
    pub fn reset(&self, system: &mut CpuInterrupts)
        requires
            NUM < 4,
        ensures
            *final(system) == old(system).with(NUM, false),
            !final(system).raised(NUM),
    {
        match NUM {
            0 => {
                system.cpu_intr_from_cpu_0 = false;
            },
            1 => {
                system.cpu_intr_from_cpu_1 = false;
            },
            2 => {
                system.cpu_intr_from_cpu_2 = false;
            },
            _ => {
                system.cpu_intr_from_cpu_3 = false;
            },
        }
    }
}

/// This gives access to the available software interrupts.
///
/// This struct contains several instances of software interrupts that can be
/// used for signaling between different parts of a program or system. Each
/// interrupt is identified by an index (0 to 3).
///
/// On a chip with more than one core, software interrupt 3 is the one for
/// signals between the cores, and is not for a yield on one core.
#[non_exhaustive]
pub struct SoftwareInterruptControl {
    /// Software interrupt 0.
    pub software_interrupt0: SoftwareInterrupt<0>,
    /// Software interrupt 1.
    pub software_interrupt1: SoftwareInterrupt<1>,
    /// Software interrupt 2.
    pub software_interrupt2: SoftwareInterrupt<2>,
    /// Software interrupt 3.
    pub software_interrupt3: SoftwareInterrupt<3>,
}

impl SoftwareInterruptControl {
    /// Create a new instance of the software interrupt control.
    pub fn new() -> (control: Self) {
        SoftwareInterruptControl {
            software_interrupt0: SoftwareInterrupt { _private: () },
            software_interrupt1: SoftwareInterrupt { _private: () },
            software_interrupt2: SoftwareInterrupt { _private: () },
            software_interrupt3: SoftwareInterrupt { _private: () },
        }
    }
}

} // verus!
