//! The machine that a context switch runs on: one hart's live registers and
//! trap control registers, the contexts of the suspended tasks, and the
//! handoff slots between a switch request and the trampoline.

use crate::chip::{sw_interrupt, Chip};
use crate::slot::{HandoffSlot, NULL_CONTEXT};
use crate::task::Registers;
use vstd::prelude::*;

verus! {

/// Machine interrupt enable: interrupts are taken while this bit of the
/// status register is set.
pub const MSTATUS_MIE: usize = 0x8;

/// Previous interrupt enable: what a trap return puts into
/// [`MSTATUS_MIE`].
pub const MSTATUS_MPIE: usize = 0x80;

/// Whether a hart running with this status takes interrupts.
pub open spec fn interrupts_enabled(mstatus: usize) -> bool {
    mstatus & MSTATUS_MIE != 0
}

/// Whether a trap return from this status enables interrupts.
pub open spec fn return_enables_interrupts(mstatus: usize) -> bool {
    mstatus & MSTATUS_MPIE != 0
}

/// The status with which the trampoline runs: `mstatus` with the previous
/// interrupt enable cleared, so that the coming trap return leaves
/// interrupts off.
pub open spec fn masked_status(mstatus: usize) -> usize {
    mstatus & !MSTATUS_MPIE
}

/// The status after a trap return from `mstatus`: the interrupt enable takes
/// the previous interrupt enable, which is then set.
pub open spec fn status_after_return(mstatus: usize) -> usize {
    if mstatus & MSTATUS_MPIE != 0 {
        mstatus | MSTATUS_MIE
    } else {
        (mstatus & !MSTATUS_MIE) | MSTATUS_MPIE
    }
}

/// The status after a trap was taken from `mstatus`: the previous interrupt
/// enable takes the interrupt enable, which is then clear.
pub open spec fn status_after_trap(mstatus: usize) -> usize {
    if mstatus & MSTATUS_MIE != 0 {
        (mstatus | MSTATUS_MPIE) & !MSTATUS_MIE
    } else {
        (mstatus & !MSTATUS_MPIE) & !MSTATUS_MIE
    }
}

/// Clears the previous interrupt enable in `mstatus`.
pub fn mask_status(mstatus: usize) -> (masked: usize)
    ensures
        masked == masked_status(mstatus),
        !return_enables_interrupts(masked),
{
    let masked: usize = mstatus & !MSTATUS_MPIE;
    assert((mstatus & !0x80usize) & 0x80usize == 0) by (bit_vector);
    masked
}

/// What a switch request writes: the decision of the request, apart from
/// the machine that it is made on.
#[derive(Debug, Clone, Copy, PartialEq, Eq, Structural)]
pub struct SwitchPlan {
    /// The program counter for the outgoing context: the address at which
    /// the running task was interrupted.
    pub outgoing_pc: usize,
    /// The status for the incoming context: the live status.
    pub incoming_status: usize,
    /// The status to run the trampoline with.
    pub mstatus: usize,
    /// The address for the trap return: the start of the trampoline.
    pub mepc: usize,
}

/// What a switch request writes, with `next` in the `next` slot and `mepc`
/// and `mstatus` in the trap registers: nothing while the slot is
/// occupied.
pub open spec fn switch_plan(next: usize, mepc: usize, mstatus: usize, trampoline: usize) -> Option<
    SwitchPlan,
> {
    if next != NULL_CONTEXT {
        None
    } else {
        Some(
            SwitchPlan {
                outgoing_pc: mepc,
                incoming_status: mstatus,
                mstatus: masked_status(mstatus),
                mepc: trampoline,
            },
        )
    }
}

/// Decides a switch request from what the `next` slot and the trap
/// registers hold.
pub fn plan_switch(next: usize, mepc: usize, mstatus: usize, trampoline: usize) -> (plan: Option<
    SwitchPlan,
>)
    ensures
        plan == switch_plan(next, mepc, mstatus, trampoline),
{
    // Check that there isn't a switch "in-progress"
    if next != NULL_CONTEXT {
        return None;
    }
    Some(
        SwitchPlan {
            outgoing_pc: mepc,
            incoming_status: mstatus,
            // set MPIE in MSTATUS to 0 to disable interrupts while task switching
            mstatus: mask_status(mstatus),
            // the trampoline runs after the handler has returned
            mepc: trampoline,
        },
    )
}

/// One hart: the live register file and the trap control registers.
///
/// `regs.pc` is the program counter and `regs.mstatus` the status register;
/// `mepc` is the address that a trap return resumes at.
#[derive(Debug, Clone, Copy, PartialEq, Eq, Structural)]
pub struct Cpu {
    /// The live registers.
    pub regs: Registers,
    /// The exception program counter.
    pub mepc: usize,
}

impl Cpu {
    /// The hart after a trap return.
    pub open spec fn after_return(self) -> Cpu {
        Cpu {
            regs: Registers {
                pc: self.mepc,
                mstatus: status_after_return(self.regs.mstatus),
                ..self.regs
            },
            mepc: self.mepc,
        }
    }

    /// The hart after it took a trap whose handler starts at `vector`.
    pub open spec fn after_trap(self, vector: usize) -> Cpu {
        Cpu {
            regs: Registers {
                pc: vector,
                mstatus: status_after_trap(self.regs.mstatus),
                ..self.regs
            },
            mepc: self.regs.pc,
        }
    }

    /// The hart after the live general registers were loaded from `ctx` and
    /// the trap return registers set to `ctx`'s program counter and status.
    pub open spec fn after_restore(self, ctx: Registers) -> Cpu {
        Cpu {
            regs: Registers { pc: self.regs.pc, mstatus: ctx.mstatus, ..ctx },
            mepc: ctx.pc,
        }
    }

    /// A hart at reset: every register zero.
    pub fn new() -> (cpu: Cpu)
        ensures
            cpu == (Cpu { regs: Registers::zeroed(), mepc: 0 }),
    {
        Cpu { regs: Registers::default(), mepc: 0 }
    }

    /// The entry of a trap: the hart goes on at `vector` with interrupts
    /// off, and keeps the interrupted address and whether interrupts were on
    /// for the trap return.
    pub fn trap(&mut self, vector: usize)
        ensures
            *final(self) == old(self).after_trap(vector),
            !interrupts_enabled(final(self).regs.mstatus),
            return_enables_interrupts(final(self).regs.mstatus) == interrupts_enabled(
                old(self).regs.mstatus,
            ),
    {
        let mstatus: usize = self.regs.mstatus;
        assert(((mstatus | 0x80usize) & !0x8usize) & 0x8usize == 0 && ((mstatus & !0x80usize)
            & !0x8usize) & 0x8usize == 0 && ((mstatus | 0x80usize) & !0x8usize) & 0x80usize != 0
            && ((mstatus & !0x80usize) & !0x8usize) & 0x80usize == 0) by (bit_vector);
        if mstatus & MSTATUS_MIE != 0 {
            self.regs.mstatus = (mstatus | MSTATUS_MPIE) & !MSTATUS_MIE;
        } else {
            self.regs.mstatus = (mstatus & !MSTATUS_MPIE) & !MSTATUS_MIE;
        }
        self.mepc = self.regs.pc;
        self.regs.pc = vector;
    }

    /// The trap return instruction: resumes at `mepc` and moves the previous
    /// interrupt enable into the interrupt enable.
    pub fn mret(&mut self)
        ensures
            *final(self) == old(self).after_return(),
            interrupts_enabled(final(self).regs.mstatus) == return_enables_interrupts(
                old(self).regs.mstatus,
            ),
    {
        let mstatus: usize = self.regs.mstatus;
        assert(((mstatus | 0x8usize) & 0x8usize != 0) && ((mstatus & !0x8usize) | 0x80usize)
            & 0x8usize == 0) by (bit_vector);
        if mstatus & MSTATUS_MPIE != 0 {
            self.regs.mstatus = mstatus | MSTATUS_MIE;
        } else {
            self.regs.mstatus = (mstatus & !MSTATUS_MIE) | MSTATUS_MPIE;
        }
        self.regs.pc = self.mepc;
    }
}

/// What a [`Machine`] is, as plain values.
pub struct MachineView {
    /// The hart.
    pub cpu: Cpu,
    /// The handle of the context that the trampoline saves into.
    pub current: usize,
    /// The handle of the context that the trampoline restores from, or
    /// [`NULL_CONTEXT`] when no switch is in flight.
    pub next: usize,
    /// The contexts of the tasks; handle `h` names `contexts[h - 1]`.
    pub contexts: Seq<Registers>,
    /// The address at which the trampoline starts.
    pub trampoline: usize,
    /// The chip.
    pub chip: Chip,
    /// The interrupts that are raised, one bit each.
    pub interrupt: u32,
    /// The interrupts that are delivered when raised, one bit each.
    pub intenable: u32,
    /// Whether the timer's interrupt condition is raised.
    pub tick_pending: bool,
}

impl MachineView {
    /// Whether `handle` names one of the contexts.
    pub open spec fn valid_handle(self, handle: usize) -> bool {
        1 <= handle <= self.contexts.len()
    }

    /// The context that `handle` names.
    pub open spec fn context(self, handle: usize) -> Registers
        recommends
            self.valid_handle(handle),
    {
        self.contexts[handle - 1]
    }

    /// Whether a switch request is waiting for the trampoline.
    pub open spec fn switch_in_flight(self) -> bool {
        self.next != NULL_CONTEXT
    }

    /// Whether the software interrupt that asks for a switch is raised.
    pub open spec fn yield_pending(self) -> bool {
        self.interrupt & sw_interrupt(self.chip) != 0
    }

    /// Whether the software interrupt that asks for a switch is delivered
    /// when raised.
    pub open spec fn yield_enabled(self) -> bool {
        self.intenable & sw_interrupt(self.chip) != 0
    }

    /// Whether the software interrupt that asks for a switch is due: it is
    /// raised and let through. A yield that was made while the line was
    /// masked becomes due when the line is let through.
    pub open spec fn yield_due(self) -> bool {
        self.yield_pending() && self.yield_enabled()
    }

    /// The machine after a switch from `old_ctx` to `new_ctx` was requested
    /// with both slots free to take it: the slots are published, the resume
    /// address of the interrupted task is kept in its context, the incoming
    /// context gets the live status, and the trap return is armed to enter
    /// the trampoline with interrupts off.
    pub open spec fn requested(self, old_ctx: usize, new_ctx: usize) -> MachineView
        recommends
            self.valid_handle(old_ctx),
            self.valid_handle(new_ctx),
            old_ctx != new_ctx,
    {
        MachineView {
            cpu: Cpu {
                regs: Registers {
                    mstatus: masked_status(self.cpu.regs.mstatus),
                    ..self.cpu.regs
                },
                mepc: self.trampoline,
            },
            current: old_ctx,
            next: new_ctx,
            contexts: self.contexts.update(
                old_ctx - 1,
                Registers { pc: self.cpu.mepc, ..self.context(old_ctx) },
            ).update(
                new_ctx - 1,
                Registers { mstatus: self.cpu.regs.mstatus, ..self.context(new_ctx) },
            ),
            ..self
        }
    }

    /// What a switch request does: nothing while another is in flight.
    pub open spec fn after_request(self, old_ctx: usize, new_ctx: usize) -> MachineView {
        if self.switch_in_flight() {
            self
        } else {
            self.requested(old_ctx, new_ctx)
        }
    }

    /// The machine after the trampoline stored the live general registers
    /// into the context in `current`, whose program counter and status stay.
    pub open spec fn saved(self) -> MachineView
        recommends
            self.valid_handle(self.current),
    {
        MachineView {
            contexts: self.contexts.update(
                self.current - 1,
                Registers {
                    pc: self.context(self.current).pc,
                    mstatus: self.context(self.current).mstatus,
                    ..self.cpu.regs
                },
            ),
            ..self
        }
    }

    /// The machine after the trampoline emptied the `next` slot.
    pub open spec fn released(self) -> MachineView {
        MachineView { next: NULL_CONTEXT, ..self }
    }

    /// The machine after the trampoline loaded the hart from the context
    /// that `handle` names.
    pub open spec fn restored(self, handle: usize) -> MachineView
        recommends
            self.valid_handle(handle),
    {
        MachineView { cpu: self.cpu.after_restore(self.context(handle)), ..self }
    }

    /// Whether the hart has entered the trampoline: it runs at its start,
    /// with interrupts off.
    pub open spec fn in_trampoline(self) -> bool {
        self.cpu.regs.pc == self.trampoline && !interrupts_enabled(self.cpu.regs.mstatus)
    }

    /// The machine after the hart took a trap whose handler starts at
    /// `vector`.
    pub open spec fn trapped(self, vector: usize) -> MachineView {
        MachineView { cpu: self.cpu.after_trap(vector), ..self }
    }

    /// The machine after a trap return.
    pub open spec fn resumed(self) -> MachineView {
        MachineView { cpu: self.cpu.after_return(), ..self }
    }

    /// The machine after a whole run of the trampoline.
    pub open spec fn switched(self) -> MachineView {
        self.saved().released().restored(self.next).resumed()
    }

    /// The slots name contexts, or nothing.
    pub open spec fn wf(self) -> bool {
        &&& self.contexts.len() < usize::MAX
        &&& self.current == NULL_CONTEXT || self.valid_handle(self.current)
        &&& self.next == NULL_CONTEXT || self.valid_handle(self.next)
        &&& self.switch_in_flight() ==> self.valid_handle(self.current) && self.current
            != self.next
    }
}

/// The hart, the task contexts and the state of the switch mechanism.
pub struct Machine {
    cpu: Cpu,
    current: HandoffSlot,
    next: HandoffSlot,
    contexts: Vec<Registers>,
    trampoline: usize,
    chip: Chip,
    interrupt: u32,
    intenable: u32,
    tick_pending: bool,
}

impl View for Machine {
    type V = MachineView;

    closed spec fn view(&self) -> MachineView {
        MachineView {
            cpu: self.cpu,
            current: self.current@,
            next: self.next@,
            contexts: self.contexts@,
            trampoline: self.trampoline,
            chip: self.chip,
            interrupt: self.interrupt,
            intenable: self.intenable,
            tick_pending: self.tick_pending,
        }
    }
}

impl Machine {
    /// See [`MachineView::wf`].
    pub open spec fn wf(&self) -> bool {
        self@.wf()
    }

    /// A machine at reset with no task, whose trampoline starts at
    /// `trampoline`.
    pub fn new(chip: Chip, trampoline: usize) -> (machine: Machine)
        ensures
            machine.wf(),
            machine@ == (MachineView {
                cpu: Cpu { regs: Registers::zeroed(), mepc: 0 },
                current: NULL_CONTEXT,
                next: NULL_CONTEXT,
                contexts: Seq::<Registers>::empty(),
                trampoline,
                chip,
                interrupt: 0,
                intenable: 0,
                tick_pending: false,
            }),
    {
        Machine {
            cpu: Cpu::new(),
            current: HandoffSlot::new(),
            next: HandoffSlot::new(),
            contexts: Vec::new(),
            trampoline,
            chip,
            interrupt: 0,
            intenable: 0,
            tick_pending: false,
        }
    }

    /// Places `ctx` among the task contexts and returns its handle, or
    /// `None` when no handle is left.
    pub fn add_context(&mut self, ctx: Registers) -> (handle: Option<usize>)
        requires
            old(self).wf(),
        ensures
            final(self).wf(),
            old(self)@.contexts.len() + 1 < usize::MAX <==> handle is Some,
            handle is None ==> final(self)@ == old(self)@,
            handle matches Some(h) ==> {
                &&& h == old(self)@.contexts.len() + 1
                &&& final(self)@ == (MachineView {
                    contexts: old(self)@.contexts.push(ctx),
                    ..old(self)@
                })
            },
    {
        if self.contexts.len() >= usize::MAX - 1 {
            return None;
        }
        self.contexts.push(ctx);
        Some(self.contexts.len())
    }

    /// The hart.
    pub fn cpu(&self) -> (cpu: Cpu)
        ensures
            cpu == self@.cpu,
    {
        self.cpu
    }

    /// Puts the hart into the state `cpu`, as the running task does by
    /// running.
    pub fn set_cpu(&mut self, cpu: Cpu)
        ensures
            final(self)@ == (MachineView { cpu, ..old(self)@ }),
    {
        self.cpu = cpu;
    }

    /// The hart takes a trap whose handler starts at `vector`.
    pub fn trap(&mut self, vector: usize)
        ensures
            final(self)@ == old(self)@.trapped(vector),
    {
        self.cpu.trap(vector);
    }

    /// The number of task contexts.
    pub fn context_count(&self) -> (n: usize)
        ensures
            n == self@.contexts.len(),
    {
        self.contexts.len()
    }

    /// The context that `handle` names, or `None` if it names none.
    pub fn context(&self, handle: usize) -> (ctx: Option<Registers>)
        ensures
            self@.valid_handle(handle) <==> ctx is Some,
            ctx matches Some(c) ==> c == self@.context(handle),
    {
        if 1 <= handle && handle <= self.contexts.len() {
            Some(self.contexts[handle - 1])
        } else {
            None
        }
    }

    /// The handle that the trampoline saves the outgoing task into.
    pub fn current_handle(&self) -> (handle: usize)
        ensures
            handle == self@.current,
    {
        self.current.load()
    }

    /// The handle that the trampoline restores from; [`NULL_CONTEXT`] when no
    /// switch is in flight.
    pub fn next_handle(&self) -> (handle: usize)
        ensures
            handle == self@.next,
    {
        self.next.load()
    }

    /// Whether a switch request waits for the trampoline.
    pub fn switch_in_flight(&self) -> (busy: bool)
        ensures
            busy == self@.switch_in_flight(),
    {
        !self.next.is_null()
    }

    /// The chip.
    pub fn chip(&self) -> (chip: Chip)
        ensures
            chip == self@.chip,
    {
        self.chip
    }

    /// The interrupts that are raised.
    pub fn interrupt(&self) -> (bits: u32)
        ensures
            bits == self@.interrupt,
    {
        self.interrupt
    }

    /// The interrupts that are delivered when raised.
    pub fn intenable(&self) -> (bits: u32)
        ensures
            bits == self@.intenable,
    {
        self.intenable
    }

    /// Whether the software interrupt that asks for a switch is raised.
    pub fn yield_pending(&self) -> (pending: bool)
        ensures
            pending == self@.yield_pending(),
    {
        self.interrupt & self.chip.sw_interrupt() != 0
    }

    /// Whether the software interrupt that asks for a switch is delivered
    /// when raised.
    pub fn yield_enabled(&self) -> (enabled: bool)
        ensures
            enabled == self@.yield_enabled(),
    {
        self.intenable & self.chip.sw_interrupt() != 0
    }

    /// Whether the software interrupt that asks for a switch is due.
    pub fn yield_due(&self) -> (due: bool)
        ensures
            due == self@.yield_due(),
    {
        self.yield_pending() && self.yield_enabled()
    }

    /// Whether the timer's interrupt condition is raised.
    pub fn tick_pending(&self) -> (pending: bool)
        ensures
            pending == self@.tick_pending,
    {
        self.tick_pending
    }

    /// The address at which the trampoline starts.
    pub fn trampoline(&self) -> (address: usize)
        ensures
            address == self@.trampoline,
    {
        self.trampoline
    }

    /// Raises the timer's interrupt condition, as the timer does at a tick.
    pub fn raise_tick(&mut self)
        ensures
            final(self)@ == (MachineView { tick_pending: true, ..old(self)@ }),
    {
        self.tick_pending = true;
    }

    /// Acknowledges the timer's interrupt condition. Doing so twice is the
    /// same as doing so once.
    pub fn clear_timer_interrupt(&mut self)
        ensures
            final(self)@ == (MachineView { tick_pending: false, ..old(self)@ }),
    {
        self.tick_pending = false;
    }

    /// Raises the interrupts in `mask`; those already raised stay raised.
    pub fn set_interrupts(&mut self, mask: u32)
        ensures
            final(self)@ == (MachineView {
                interrupt: old(self)@.interrupt | mask,
                ..old(self)@
            }),
    {
        self.interrupt = self.interrupt | mask;
    }

    /// Clears the interrupts in `mask`.
    pub fn clear_interrupts(&mut self, mask: u32)
        ensures
            final(self)@ == (MachineView {
                interrupt: old(self)@.interrupt & !mask,
                ..old(self)@
            }),
    {
        self.interrupt = self.interrupt & !mask;
    }

    /// Masks every interrupt and returns those that were enabled.
    pub fn disable_interrupts(&mut self) -> (enabled: u32)
        ensures
            enabled == old(self)@.intenable,
            final(self)@ == (MachineView { intenable: 0, ..old(self)@ }),
    {
        let enabled: u32 = self.intenable;
        self.intenable = 0;
        enabled
    }

    /// Enables the interrupts in `mask` beside those enabled, which it
    /// returns.
    pub fn enable_mask(&mut self, mask: u32) -> (enabled: u32)
        ensures
            enabled == old(self)@.intenable,
            final(self)@ == (MachineView {
                intenable: old(self)@.intenable | mask,
                ..old(self)@
            }),
    {
        let enabled: u32 = self.intenable;
        self.intenable = enabled | mask;
        enabled
    }

    /// Masks the interrupts in `mask` and returns those that were enabled.
    pub fn disable_mask(&mut self, mask: u32) -> (enabled: u32)
        ensures
            enabled == old(self)@.intenable,
            final(self)@ == (MachineView {
                intenable: old(self)@.intenable & !mask,
                ..old(self)@
            }),
    {
        let enabled: u32 = self.intenable;
        self.intenable = enabled & !mask;
        enabled
    }

    /// First stage of the trampoline: stores every live register of the
    /// outgoing task, but for the program counter and the status, into the
    /// context that `current` names.
    pub fn save_outgoing(&mut self)
        requires
            old(self).wf(),
            old(self)@.valid_handle(old(self)@.current),
        ensures
            final(self).wf(),
            final(self)@ == old(self)@.saved(),
    {
        let index: usize = self.current.load() - 1;
        let kept: Registers = self.contexts[index];
        let mut ctx: Registers = self.cpu.regs;
        ctx.pc = kept.pc;
        ctx.mstatus = kept.mstatus;
        self.contexts.set(index, ctx);
    }

    /// Second stage of the trampoline: reads the `next` slot and frees it at
    /// once, before any register is restored. Returns the handle read.
    pub fn take_next(&mut self) -> (handle: usize)
        requires
            old(self).wf(),
        ensures
            final(self).wf(),
            handle == old(self)@.next,
            final(self)@ == old(self)@.released(),
    {
        self.next.take()
    }

    /// Third stage of the trampoline: loads every general register from the
    /// context that `handle` names, and its program counter and status into
    /// the registers that the trap return reads.
    pub fn restore_incoming(&mut self, handle: usize)
        requires
            old(self).wf(),
            old(self)@.valid_handle(handle),
        ensures
            final(self).wf(),
            final(self)@ == old(self)@.restored(handle),
    {
        let ctx: Registers = self.contexts[handle - 1];
        let pc: usize = self.cpu.regs.pc;
        self.cpu.regs = ctx;
        self.cpu.regs.pc = pc;
        self.cpu.mepc = ctx.pc;
    }

    /// Last stage of the trampoline, and the end of every trap handler: the
    /// trap return.
    pub fn resume(&mut self)
        requires
            old(self).wf(),
        ensures
            final(self).wf(),
            final(self)@ == old(self)@.resumed(),
    {
        self.cpu.mret();
    }
}

/// Switch to next task
///
/// Asks the trampoline to save the running task into the context that
/// `old_ctx` names and to resume the one that `new_ctx` names. Called from
/// an interrupt handler; the switch itself happens when that handler returns.
///
/// Returns `false`, and changes nothing, while an earlier request has not
/// been taken by the trampoline. Otherwise it publishes both handles, keeps
/// the interrupted task's resume address in its context, hands the live
/// status to the incoming context, clears the previous interrupt enable and
/// points the trap return at the trampoline.
pub fn task_switch(machine: &mut Machine, old_ctx: usize, new_ctx: usize) -> (armed: bool)
    requires
        old(machine).wf(),
        old(machine)@.valid_handle(old_ctx),
        old(machine)@.valid_handle(new_ctx),
        old_ctx != new_ctx,
    ensures
        final(machine).wf(),
        armed == !old(machine)@.switch_in_flight(),
        final(machine)@ == old(machine)@.after_request(old_ctx, new_ctx),
        armed ==> final(machine)@.switch_in_flight(),
{
    let Some(plan) = plan_switch(
        machine.next.load(),
        machine.cpu.mepc,
        machine.cpu.regs.mstatus,
        machine.trampoline,
    ) else {
        return false;
    };

    machine.current.store(old_ctx);
    machine.next.store(new_ctx);

    let mut outgoing: Registers = machine.contexts[old_ctx - 1];
    outgoing.pc = plan.outgoing_pc;
    machine.contexts.set(old_ctx - 1, outgoing);

    // MIE will be set from MPIE
    let mut incoming: Registers = machine.contexts[new_ctx - 1];
    incoming.mstatus = plan.incoming_status;
    machine.contexts.set(new_ctx - 1, incoming);

    machine.cpu.regs.mstatus = plan.mstatus;
    machine.cpu.mepc = plan.mepc;

    true
}

/// The trap-entry trampoline: saves the outgoing task, frees the `next`
/// slot, loads the incoming task and returns from the trap into it.
///
/// It is entered by the trap return that [`task_switch`] armed, never
/// called by a task. An empty `next` slot here is fatal, hence required
/// not to be.
pub fn sys_switch(machine: &mut Machine)
    requires
        old(machine).wf(),
        old(machine)@.switch_in_flight(),
        old(machine)@.in_trampoline(),
    ensures
        final(machine).wf(),
        !final(machine)@.switch_in_flight(),
        final(machine)@ == old(machine)@.switched(),
{
    machine.save_outgoing();
    let next: usize = machine.take_next();
    machine.restore_incoming(next);
    machine.resume();
}

} // verus!
