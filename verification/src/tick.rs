//! The two triggers of a context switch: the voluntary yield and the timer
//! tick, and the interrupt setup that lets them through.

use crate::chip::{sw_interrupt, tick_redirects};
use crate::machine::{task_switch, Machine, MachineView};
use vstd::prelude::*;

verus! {

/// The interrupts that are enabled once multitasking is set up: the switch
/// interrupt, those of priority levels 2 and 6, and those that were enabled.
pub open spec fn multitasking_interrupts(
    sw_interrupt: u32,
    level2_mask: u32,
    level6_mask: u32,
    enabled: u32,
) -> u32 {
    sw_interrupt | level2_mask | level6_mask | enabled
}

/// The interrupts to enable when multitasking is set up.
pub fn multitasking_mask(sw_interrupt: u32, level2_mask: u32, level6_mask: u32, enabled: u32) -> (mask:
    u32)
    ensures
        mask == multitasking_interrupts(sw_interrupt, level2_mask, level6_mask, enabled),
{
    sw_interrupt | level2_mask | level6_mask | enabled
}

impl MachineView {
    /// The machine after a voluntary yield.
    pub open spec fn yielded(self) -> MachineView {
        MachineView { interrupt: self.interrupt | sw_interrupt(self.chip), ..self }
    }

    /// The machine with the switch interrupt acknowledged.
    pub open spec fn yield_taken(self) -> MachineView {
        MachineView { interrupt: self.interrupt & !sw_interrupt(self.chip), ..self }
    }

    /// The machine with the timer's interrupt condition acknowledged.
    pub open spec fn tick_taken(self) -> MachineView {
        MachineView { tick_pending: false, ..self }
    }

    /// The machine after the handler of the timer tick ran, with `old_ctx`
    /// running and `new_ctx` selected to run next.
    pub open spec fn ticked(self, old_ctx: usize, new_ctx: usize) -> MachineView {
        if tick_redirects(self.chip) {
            self.tick_taken().yielded()
        } else {
            self.tick_taken().after_request(old_ctx, new_ctx)
        }
    }
}

/// Lets the switch interrupt and the interrupts of priority levels 2 and 6
/// through, beside those enabled before. `level2_mask` and `level6_mask` are
/// the bits of the interrupts at those levels.
pub fn setup_multitasking(machine: &mut Machine, level2_mask: u32, level6_mask: u32)
    ensures
        final(machine)@ == (MachineView {
            intenable: multitasking_interrupts(
                sw_interrupt(old(machine)@.chip),
                level2_mask,
                level6_mask,
                old(machine)@.intenable,
            ),
            ..old(machine)@
        }),
        final(machine)@.yield_enabled(),
{
    let enabled: u32 = machine.disable_interrupts();
    let sw: u32 = machine.chip().sw_interrupt();
    let mask: u32 = multitasking_mask(sw, level2_mask, level6_mask, enabled);
    assert(sw == 0x2000_0000u32 || sw == 0x80u32);
    assert((sw == 0x2000_0000u32 || sw == 0x80u32) ==> ((0u32 | (sw | level2_mask | level6_mask
        | enabled)) & sw != 0 && (0u32 | (sw | level2_mask | level6_mask | enabled)) == (sw
        | level2_mask | level6_mask | enabled))) by (bit_vector);
    machine.enable_mask(mask);
}

/// Masks the switch interrupt; a yield from now on stays latched.
pub fn disable_multitasking(machine: &mut Machine)
    ensures
        final(machine)@ == (MachineView {
            intenable: old(machine)@.intenable & !sw_interrupt(old(machine)@.chip),
            ..old(machine)@
        }),
        !final(machine)@.yield_enabled(),
{
    let sw: u32 = machine.chip().sw_interrupt();
    let ghost enabled: u32 = machine@.intenable;
    assert((enabled & !sw) & sw == 0) by (bit_vector);
    machine.disable_mask(sw);
}

/// Raises the switch interrupt. The line is a latch: while it is masked the
/// request waits, and is delivered once the line is let through.
pub fn yield_task(machine: &mut Machine)
    ensures
        final(machine)@ == old(machine)@.yielded(),
        final(machine)@.yield_pending(),
{
    let sw: u32 = machine.chip().sw_interrupt();
    let ghost raised: u32 = machine@.interrupt;
    assert((sw == 0x2000_0000u32 || sw == 0x80u32) ==> (raised | sw) & sw != 0) by (bit_vector);
    machine.set_interrupts(sw);
}

/// The handler of the switch interrupt: acknowledges the interrupt and
/// requests the switch from `old_ctx`, which runs, to `new_ctx`.
pub fn task_switch_interrupt(machine: &mut Machine, old_ctx: usize, new_ctx: usize) -> (armed:
    bool)
    requires
        old(machine).wf(),
        old(machine)@.valid_handle(old_ctx),
        old(machine)@.valid_handle(new_ctx),
        old_ctx != new_ctx,
    ensures
        final(machine).wf(),
        armed == !old(machine)@.switch_in_flight(),
        final(machine)@ == old(machine)@.yield_taken().after_request(old_ctx, new_ctx),
        !final(machine)@.yield_pending(),
{
    let sw: u32 = machine.chip().sw_interrupt();
    let ghost raised: u32 = machine@.interrupt;
    assert((raised & !sw) & sw == 0) by (bit_vector);
    machine.clear_interrupts(sw);

    task_switch(machine, old_ctx, new_ctx)
}

/// The handler of the timer tick, with `old_ctx` running and `new_ctx`
/// selected to run next.
///
/// It first acknowledges the timer. A switch must be requested at one
/// interrupt priority only: where the timer runs at another priority than
/// the switch interrupt, the handler raises that interrupt and leaves the
/// slots alone; elsewhere it requests the switch itself.
pub fn timer_tick_handler(machine: &mut Machine, old_ctx: usize, new_ctx: usize)
    requires
        old(machine).wf(),
        old(machine)@.valid_handle(old_ctx),
        old(machine)@.valid_handle(new_ctx),
        old_ctx != new_ctx,
    ensures
        final(machine).wf(),
        final(machine)@ == old(machine)@.ticked(old_ctx, new_ctx),
        !final(machine)@.tick_pending,
{
    machine.clear_timer_interrupt();

    if machine.chip().tick_redirects() {
        yield_task(machine);
    } else {
        task_switch(machine, old_ctx, new_ctx);
    }
}

} // verus!
