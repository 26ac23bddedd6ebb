//! The interrupts of the peripherals that the drivers bind handlers to.

use vstd::prelude::*;

verus! {

/// A peripheral interrupt.
#[allow(non_camel_case_types)]
#[derive(Debug, Clone, Copy, PartialEq, Eq, Structural)]
pub enum Interrupt {
    /// The debug assistant.
    ASSIST_DEBUG,
    /// The ECC accelerator.
    ECC,
    /// Software interrupt 0.
    FROM_CPU_INTR0,
    /// Software interrupt 1.
    FROM_CPU_INTR1,
    /// Software interrupt 2.
    FROM_CPU_INTR2,
    /// Software interrupt 3.
    FROM_CPU_INTR3,
    /// Timer 0 of timer group 0.
    TG0_T0_LEVEL,
    /// Timer 1 of timer group 0.
    TG0_T1_LEVEL,
    /// Timer 0 of timer group 1.
    TG1_T0_LEVEL,
    /// Timer 1 of timer group 1.
    TG1_T1_LEVEL,
    /// The watchdog of timer group 0.
    TG0_WDT_LEVEL,
    /// The watchdog of timer group 1.
    TG1_WDT_LEVEL,
}

/// A core of the chip.
#[derive(Debug, Clone, Copy, PartialEq, Eq, Structural)]
pub enum Cpu {
    /// The first core
    ProCpu,
    /// The second core
    AppCpu,
}

/// One step of installing an interrupt handler.
#[derive(Debug, Clone, Copy, PartialEq, Eq, Structural)]
pub enum HandlerStep {
    /// The interrupt is disabled on a core.
    Disable {
        /// The core.
        core: Cpu,
        /// The interrupt.
        interrupt: Interrupt,
    },
    /// The handler is bound to the interrupt.
    Bind {
        /// The interrupt.
        interrupt: Interrupt,
    },
    /// The interrupt is enabled on the running core, at the priority of the
    /// handler.
    Enable {
        /// The interrupt.
        interrupt: Interrupt,
    },
}

/// The cores other than `current`: the other one on a chip with two cores,
/// none on a chip with one.
pub open spec fn other_cores(current: Cpu, multi_core: bool) -> Seq<Cpu> {
    if !multi_core {
        seq![]
    } else if current == Cpu::ProCpu {
        seq![Cpu::AppCpu]
    } else {
        seq![Cpu::ProCpu]
    }
}

/// The steps that install a handler for `interrupt` from the core
/// `current`: the interrupt is disabled on every other core, then the
/// handler is bound, then the interrupt is enabled.
pub open spec fn handler_steps(interrupt: Interrupt, current: Cpu, multi_core: bool) -> Seq<
    HandlerStep,
> {
    other_cores(current, multi_core).map_values(
        |core: Cpu| HandlerStep::Disable { core, interrupt },
    ) + seq![HandlerStep::Bind { interrupt }, HandlerStep::Enable { interrupt }]
}

impl Cpu {
    /// The cores other than this one.
    pub fn other(self, multi_core: bool) -> (cores: Vec<Cpu>)
        ensures
            cores@ == other_cores(self, multi_core),
    {
        let mut cores: Vec<Cpu> = Vec::new();
        if multi_core {
            match self {
                Cpu::ProCpu => cores.push(Cpu::AppCpu),
                Cpu::AppCpu => cores.push(Cpu::ProCpu),
            }
        }
        assert(cores@ =~= other_cores(self, multi_core));
        cores
    }
}

/// The steps that install a handler for `interrupt` from the core `current`.
pub fn set_interrupt_handler(interrupt: Interrupt, current: Cpu, multi_core: bool) -> (steps: Vec<
    HandlerStep,
>)
    ensures
        steps@ == handler_steps(interrupt, current, multi_core),
{
    let mut steps: Vec<HandlerStep> = Vec::new();
    let others = current.other(multi_core);
    let mut i: usize = 0;
    while i < others.len()
        invariant
            i <= others@.len(),
            steps@ == others@.subrange(0, i as int).map_values(
                |core: Cpu| HandlerStep::Disable { core, interrupt },
            ),
        decreases others@.len() - i,
    {
        steps.push(HandlerStep::Disable { core: others[i], interrupt });
        assert(steps@ =~= others@.subrange(0, i + 1).map_values(
            |core: Cpu| HandlerStep::Disable { core, interrupt },
        ));
        i += 1;
    }
    assert(others@.subrange(0, others@.len() as int) == others@);
    steps.push(HandlerStep::Bind { interrupt });
    steps.push(HandlerStep::Enable { interrupt });
    assert(steps@ =~= handler_steps(interrupt, current, multi_core));
    steps
}

/// The steps that install a handler for an interrupt that is not disabled
/// on other cores first.
pub fn bind_and_enable(interrupt: Interrupt) -> (steps: Vec<HandlerStep>)
    ensures
        steps@ == seq![HandlerStep::Bind { interrupt }, HandlerStep::Enable { interrupt }],
{
    let mut steps: Vec<HandlerStep> = Vec::new();
    steps.push(HandlerStep::Bind { interrupt });
    steps.push(HandlerStep::Enable { interrupt });
    steps
}

} // verus!
