//! What holds of the switch mechanism as a whole.

use crate::chip::{sw_interrupt, tick_redirects};
use crate::machine::{
    interrupts_enabled, masked_status, return_enables_interrupts, status_after_return,
    status_after_trap, MachineView,
};
use crate::task::{align_stack, initial_context, STACK_ALIGN};
use vstd::prelude::*;

verus! {

/// A request for a switch: the context to save into and the one to resume.
pub struct Switch {
    /// The handle of the running task's context.
    pub from: usize,
    /// The handle of the context to resume.
    pub to: usize,
}

impl MachineView {
    /// Whether `request` may be made of this machine.
    pub open spec fn admits(self, request: Switch) -> bool {
        &&& self.valid_handle(request.from)
        &&& self.valid_handle(request.to)
        &&& request.from != request.to
    }

    /// The machine after a whole switch: the request, the return of the
    /// handler that made it, and the trampoline.
    pub open spec fn after_switch(self, request: Switch) -> MachineView {
        self.after_request(request.from, request.to).resumed().switched()
    }

    /// The machine after the switches in `requests`, one after the other.
    pub open spec fn after_switches(self, requests: Seq<Switch>) -> MachineView
        decreases requests.len(),
    {
        if requests.len() == 0 {
            self
        } else {
            self.after_switch(requests[0]).after_switches(requests.drop_first())
        }
    }
}

/// What a trap return does to the interrupt enable: it takes the previous
/// interrupt enable. After the previous interrupt enable was cleared, it
/// leaves interrupts off.
pub proof fn lemma_status_after_return(mstatus: usize)
    ensures
        interrupts_enabled(status_after_return(mstatus)) == return_enables_interrupts(mstatus),
        !interrupts_enabled(status_after_return(masked_status(mstatus))),
{
    let masked = masked_status(mstatus);
    assert(((mstatus | 0x8usize) & 0x8usize != 0) && ((mstatus & !0x8usize) | 0x80usize)
        & 0x8usize == 0 && (mstatus & !0x80usize) & 0x80usize == 0 && (((mstatus & !0x80usize)
        & !0x8usize) | 0x80usize) & 0x8usize == 0) by (bit_vector);
}

/// A trap and the return from it: the hart goes on where it was
/// interrupted, with interrupts on if they were on before.
pub proof fn lemma_trap_round_trip(m: MachineView, vector: usize)
    ensures
        m.cpu.after_trap(vector).after_return().regs.pc == m.cpu.regs.pc,
        m.cpu.after_trap(vector).after_return().regs.general() == m.cpu.regs.general(),
        interrupts_enabled(m.cpu.after_trap(vector).after_return().regs.mstatus)
            == interrupts_enabled(m.cpu.regs.mstatus),
        !interrupts_enabled(m.cpu.after_trap(vector).regs.mstatus),
{
    let mstatus = m.cpu.regs.mstatus;
    let trapped = status_after_trap(mstatus);
    assert(((mstatus | 0x80usize) & !0x8usize) & 0x8usize == 0 && ((mstatus & !0x80usize)
        & !0x8usize) & 0x8usize == 0 && ((mstatus | 0x80usize) & !0x8usize) & 0x80usize != 0 && (
    (mstatus & !0x80usize) & !0x8usize) & 0x80usize == 0) by (bit_vector);
    lemma_status_after_return(trapped);
}

/// A whole switch keeps the machine well formed, leaves no request in
/// flight, and touches no context but the two it was asked for.
pub proof fn lemma_switch_frame(m: MachineView, request: Switch, other: usize)
    requires
        m.wf(),
        !m.switch_in_flight(),
        m.admits(request),
        m.valid_handle(other),
        other != request.from,
        other != request.to,
    ensures
        m.after_switch(request).wf(),
        !m.after_switch(request).switch_in_flight(),
        m.after_switch(request).contexts.len() == m.contexts.len(),
        m.after_switch(request).context(other) == m.context(other),
{
}

/// Round trip of a new task: a context built from an entry point, an
/// argument and a stack top, when switched into for the first time, starts
/// the task at the entry point, with the argument in `a0` and the stack
/// pointer at the stack top rounded down to 16 bytes, which lies in any stack
/// region that ends at the stack top and holds at least 15 bytes.
pub proof fn lemma_first_switch_enters_task(
    m: MachineView,
    request: Switch,
    entry: usize,
    argument: usize,
    stack_bottom: usize,
    stack_top: usize,
)
    requires
        m.wf(),
        !m.switch_in_flight(),
        m.admits(request),
        m.context(request.to) == initial_context(entry, argument, stack_top),
    ensures
        m.after_switch(request).cpu.regs.pc == entry,
        m.after_switch(request).cpu.regs.a0 == argument,
        m.after_switch(request).cpu.regs.sp == align_stack(stack_top),
        m.after_switch(request).cpu.regs.sp % STACK_ALIGN == 0,
        stack_top - STACK_ALIGN < m.after_switch(request).cpu.regs.sp <= stack_top,
        stack_bottom + STACK_ALIGN - 1 <= stack_top ==> stack_bottom <= m.after_switch(
            request,
        ).cpu.regs.sp,
{
}

/// Re-entrancy guard: from a request until the trampoline has freed the
/// `next` slot, every further request is refused and changes nothing:
/// neither the slots nor any context nor the hart. That holds right after
/// the request, after the handler has returned into the trampoline, and
/// after the trampoline has saved the outgoing task.
pub proof fn lemma_request_refused_while_in_flight(
    m: MachineView,
    first: Switch,
    second: Switch,
)
    requires
        m.wf(),
        !m.switch_in_flight(),
        m.admits(first),
    ensures
        ({
            let armed = m.after_request(first.from, first.to);
            let entered = armed.resumed();
            let saved = entered.saved();
            &&& armed.switch_in_flight()
            &&& armed.after_request(second.from, second.to) == armed
            &&& entered.switch_in_flight()
            &&& entered.after_request(second.from, second.to) == entered
            &&& saved.switch_in_flight()
            &&& saved.after_request(second.from, second.to) == saved
            &&& !saved.released().switch_in_flight()
        }),
{
}

/// A timer tick on a chip that passes ticks on through the switch
/// interrupt touches neither the slots, nor a context, nor the hart,
/// whatever state the switch mechanism is in: it acknowledges the timer and
/// leaves the switch interrupt raised. On any chip, a tick that arrives
/// while a request is in flight leaves the request as it is.
pub proof fn lemma_tick_keeps_request_in_flight(m: MachineView, old_ctx: usize, new_ctx: usize)
    ensures
        tick_redirects(m.chip) || m.switch_in_flight() ==> {
            &&& m.ticked(old_ctx, new_ctx).current == m.current
            &&& m.ticked(old_ctx, new_ctx).next == m.next
            &&& m.ticked(old_ctx, new_ctx).contexts == m.contexts
            &&& m.ticked(old_ctx, new_ctx).cpu == m.cpu
        },
        tick_redirects(m.chip) ==> m.ticked(old_ctx, new_ctx).yield_pending(),
        !m.ticked(old_ctx, new_ctx).tick_pending,
{
    let sw = sw_interrupt(m.chip);
    let raised = m.interrupt;
    assert((sw == 0x2000_0000u32 || sw == 0x80u32) ==> (raised | sw) & sw != 0) by (bit_vector);
}

/// Switches that neither save into nor resume the context `parked` leave it
/// as it is.
pub proof fn lemma_switches_keep_parked_context(
    m: MachineView,
    requests: Seq<Switch>,
    parked: usize,
)
    requires
        m.wf(),
        !m.switch_in_flight(),
        m.valid_handle(parked),
        forall|i: int|
            0 <= i < requests.len() ==> {
                &&& m.admits(#[trigger] requests[i])
                &&& requests[i].from != parked
                &&& requests[i].to != parked
            },
    ensures
        m.after_switches(requests).wf(),
        !m.after_switches(requests).switch_in_flight(),
        m.after_switches(requests).contexts.len() == m.contexts.len(),
        m.after_switches(requests).context(parked) == m.context(parked),
    decreases requests.len(),
{
    if requests.len() > 0 {
        let first = requests[0];
        let rest = requests.drop_first();
        lemma_switch_frame(m, first, parked);
        let next = m.after_switch(first);
        assert forall|i: int| 0 <= i < rest.len() implies {
            &&& next.admits(#[trigger] rest[i])
            &&& rest[i].from != parked
            &&& rest[i].to != parked
        } by {
            assert(rest[i] == requests[i + 1]);
        }
        lemma_switches_keep_parked_context(next, rest, parked);
    }
}

/// Register preservation: a task that is switched away from, then left
/// alone during any number of switches among other tasks, and at last
/// switched back to, finds every general register as it left it and goes on
/// at the address at which it was interrupted.
pub proof fn lemma_registers_survive_switches(
    m: MachineView,
    away: Switch,
    between: Seq<Switch>,
    back: Switch,
)
    requires
        m.wf(),
        !m.switch_in_flight(),
        m.admits(away),
        m.admits(back),
        back.to == away.from,
        forall|i: int|
            0 <= i < between.len() ==> {
                &&& m.admits(#[trigger] between[i])
                &&& between[i].from != away.from
                &&& between[i].to != away.from
            },
    ensures
        ({
            let back_again = m.after_switch(away).after_switches(between).after_switch(back);
            &&& back_again.cpu.regs.general() == m.cpu.regs.general()
            &&& back_again.cpu.regs.pc == m.cpu.mepc
        }),
{
    let parked = away.from;
    let left = m.after_switch(away);
    assert(left.wf());
    assert(!left.switch_in_flight());
    assert(left.context(parked).general() == m.cpu.regs.general());
    assert(left.context(parked).pc == m.cpu.mepc);
    assert forall|i: int| 0 <= i < between.len() implies {
        &&& left.admits(#[trigger] between[i])
        &&& between[i].from != parked
        &&& between[i].to != parked
    } by {
        assert(m.admits(between[i]));
    }
    lemma_switches_keep_parked_context(left, between, parked);
    let idle = left.after_switches(between);
    assert(idle.context(parked) == left.context(parked));
    assert(idle.admits(back));
}

/// Status invariant: the trampoline runs with interrupts off, and the task
/// that a switch resumes runs with the status with which the requesting
/// handler would have returned. Its interrupt enable is the previous
/// interrupt enable as it stood at the request: on after an interrupt that
/// was taken with interrupts on, off only where they were off before. The
/// masking that protects the trampoline does not reach the task.
pub proof fn lemma_switch_restores_interrupt_enable(m: MachineView, request: Switch)
    requires
        m.wf(),
        !m.switch_in_flight(),
        m.admits(request),
    ensures
        ({
            let entered = m.after_request(request.from, request.to).resumed();
            let done = m.after_switch(request);
            &&& entered.in_trampoline()
            &&& entered.switch_in_flight()
            &&& entered.wf()
            &&& done.cpu.regs.mstatus == status_after_return(m.cpu.regs.mstatus)
            &&& interrupts_enabled(done.cpu.regs.mstatus) == return_enables_interrupts(
                m.cpu.regs.mstatus,
            )
        }),
{
    lemma_status_after_return(m.cpu.regs.mstatus);
}

} // verus!
