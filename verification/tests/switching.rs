use esp_preempt::chip::Chip;
use esp_preempt::machine::{
    mask_status, plan_switch, sys_switch, task_switch, Cpu, Machine, SwitchPlan, MSTATUS_MIE,
    MSTATUS_MPIE,
};
use esp_preempt::slot::{HandoffSlot, NULL_CONTEXT};
use esp_preempt::task::{new_task_context, Registers};
use esp_preempt::tick::{
    disable_multitasking, setup_multitasking, task_switch_interrupt, timer_tick_handler,
    yield_task,
};

const TRAMPOLINE: usize = 0x4038_0000;

/// The running task changes the hart.
fn edit(machine: &mut Machine, change: impl FnOnce(&mut Cpu)) {
    let mut cpu = machine.cpu();
    change(&mut cpu);
    machine.set_cpu(cpu);
}
const HANDLER: usize = 0x4038_1000;

/// A machine with three contexts: that of the code that starts the tasks,
/// and those of two tasks that were never run.
fn machine_with_tasks(chip: Chip) -> (Machine, usize, usize, usize) {
    let mut machine = Machine::new(chip, TRAMPOLINE);
    let main = machine.add_context(Registers::default()).unwrap();
    let a = machine
        .add_context(new_task_context(0x4200_0100, 0xa, 0x3fc9_0008))
        .unwrap();
    let b = machine
        .add_context(new_task_context(0x4200_0200, 0xb, 0x3fc9_8004))
        .unwrap();
    edit(&mut machine, |cpu| cpu.regs.mstatus = MSTATUS_MIE);
    edit(&mut machine, |cpu| cpu.regs.pc = 0x4200_0000);
    (machine, main, a, b)
}

/// A whole switch as the hardware runs it: the interrupt is taken, its
/// handler requests the switch and returns, the trampoline runs.
fn switch(machine: &mut Machine, from: usize, to: usize) {
    machine.trap(HANDLER);
    assert!(task_switch_interrupt(machine, from, to));
    machine.resume();
    assert_eq!(machine.cpu().regs.pc, TRAMPOLINE);
    sys_switch(machine);
}

#[test]
fn initial_context_holds_entry_argument_and_aligned_stack() {
    let ctx = new_task_context(0x4200_1234, 0x3fc8_0040, 0x3fc9_000f);
    assert_eq!(ctx.pc, 0x4200_1234);
    assert_eq!(ctx.a0, 0x3fc8_0040);
    assert_eq!(ctx.sp, 0x3fc9_0000);
    let expected = Registers {
        pc: 0x4200_1234,
        a0: 0x3fc8_0040,
        sp: 0x3fc9_0000,
        ..Registers::default()
    };
    assert_eq!(ctx, expected);
}

#[test]
fn stack_top_is_rounded_down_to_sixteen() {
    assert_eq!(new_task_context(1, 2, 0).sp, 0);
    assert_eq!(new_task_context(1, 2, 15).sp, 0);
    assert_eq!(new_task_context(1, 2, 16).sp, 16);
    assert_eq!(new_task_context(1, 2, 31).sp, 16);
    assert_eq!(new_task_context(1, 2, usize::MAX).sp, usize::MAX - 15);
}

#[test]
fn default_context_is_all_zero() {
    let ctx = Registers::default();
    assert_eq!(ctx.ra, 0);
    assert_eq!(ctx.s11, 0);
    assert_eq!(ctx.sp, 0);
    assert_eq!(ctx.pc, 0);
    assert_eq!(ctx.mstatus, 0);
    assert_eq!(ctx, new_task_context(0, 0, 0));
}

#[test]
fn handoff_slot_holds_what_was_stored() {
    let mut slot = HandoffSlot::new();
    assert!(slot.is_null());
    assert_eq!(slot.load(), NULL_CONTEXT);
    slot.store(7);
    assert!(!slot.is_null());
    assert_eq!(slot.load(), 7);
    slot.store(9);
    assert_eq!(slot.load(), 9);
    assert_eq!(slot.take(), 9);
    assert!(slot.is_null());
    assert_eq!(slot.take(), NULL_CONTEXT);
}

#[test]
fn contexts_get_handles_from_one() {
    let mut machine = Machine::new(Chip::Esp32c3, TRAMPOLINE);
    assert_eq!(machine.context_count(), 0);
    assert_eq!(machine.context(0), None);
    assert_eq!(machine.context(1), None);
    let ctx = new_task_context(1, 2, 48);
    assert_eq!(machine.add_context(ctx), Some(1));
    assert_eq!(machine.add_context(Registers::default()), Some(2));
    assert_eq!(machine.context_count(), 2);
    assert_eq!(machine.context(1), Some(ctx));
    assert_eq!(machine.context(2), Some(Registers::default()));
    assert_eq!(machine.context(3), None);
    assert_eq!(machine.trampoline(), TRAMPOLINE);
    assert_eq!(machine.chip(), Chip::Esp32c3);
}

#[test]
fn request_publishes_and_arms() {
    let (mut machine, main, a, _b) = machine_with_tasks(Chip::Esp32c3);
    machine.trap(HANDLER);
    let status = machine.cpu().regs.mstatus;
    assert_eq!(status & MSTATUS_MPIE, MSTATUS_MPIE);
    let interrupted = machine.cpu().mepc;
    assert_eq!(interrupted, 0x4200_0000);

    assert!(task_switch(&mut machine, main, a));

    assert_eq!(machine.current_handle(), main);
    assert_eq!(machine.next_handle(), a);
    assert!(machine.switch_in_flight());
    // the resume address of the interrupted code is kept in its context
    assert_eq!(machine.context(main).unwrap().pc, interrupted);
    // the incoming context gets the live status, unmasked
    assert_eq!(machine.context(a).unwrap().mstatus, status);
    // the trap return is armed to enter the trampoline with interrupts off
    assert_eq!(machine.cpu().regs.mstatus, status & !MSTATUS_MPIE);
    assert_eq!(machine.cpu().mepc, TRAMPOLINE);
}

#[test]
fn plan_of_a_request() {
    assert_eq!(plan_switch(3, 0x100, 0x1888, TRAMPOLINE), None);
    assert_eq!(
        plan_switch(0, 0x100, 0x1888, TRAMPOLINE),
        Some(SwitchPlan {
            outgoing_pc: 0x100,
            incoming_status: 0x1888,
            mstatus: 0x1808,
            mepc: TRAMPOLINE,
        })
    );
}

#[test]
fn mask_status_clears_previous_interrupt_enable() {
    assert_eq!(mask_status(0x1888), 0x1808);
    assert_eq!(mask_status(0x1808), 0x1808);
    assert_eq!(mask_status(usize::MAX), usize::MAX - 0x80);
}

#[test]
fn trap_and_return_move_interrupt_enable() {
    let mut cpu = Cpu::new();
    cpu.regs.pc = 0x100;
    cpu.regs.mstatus = 0x1808;
    cpu.trap(0x40);
    assert_eq!(cpu.regs.pc, 0x40);
    assert_eq!(cpu.mepc, 0x100);
    assert_eq!(cpu.regs.mstatus, 0x1880);
    cpu.mret();
    assert_eq!(cpu.regs.pc, 0x100);
    assert_eq!(cpu.regs.mstatus, 0x1888);

    cpu.regs.mstatus = 0x1800;
    cpu.trap(0x40);
    assert_eq!(cpu.regs.mstatus, 0x1800);
    cpu.mret();
    assert_eq!(cpu.regs.mstatus, 0x1880);
}

/// Round trip of a new task.
#[test]
fn first_switch_enters_task_at_entry() {
    let (mut machine, main, a, b) = machine_with_tasks(Chip::Esp32c3);
    switch(&mut machine, main, a);
    assert_eq!(machine.cpu().regs.pc, 0x4200_0100);
    assert_eq!(machine.cpu().regs.a0, 0xa);
    assert_eq!(machine.cpu().regs.sp, 0x3fc9_0000);
    assert_eq!(machine.cpu().regs.sp % 16, 0);
    assert_eq!(machine.cpu().regs.ra, 0);
    assert!(!machine.switch_in_flight());

    switch(&mut machine, a, b);
    assert_eq!(machine.cpu().regs.pc, 0x4200_0200);
    assert_eq!(machine.cpu().regs.a0, 0xb);
    assert_eq!(machine.cpu().regs.sp, 0x3fc9_8000);
}

/// Re-entrancy guard: two requests back to back.
#[test]
fn second_request_is_refused_and_changes_nothing() {
    let (mut machine, main, a, b) = machine_with_tasks(Chip::Esp32c3);
    machine.trap(HANDLER);
    assert!(task_switch(&mut machine, main, a));

    let cpu = machine.cpu();
    let contexts = [
        machine.context(main).unwrap(),
        machine.context(a).unwrap(),
        machine.context(b).unwrap(),
    ];
    assert!(!task_switch(&mut machine, a, b));
    assert!(!task_switch(&mut machine, b, main));
    assert_eq!(machine.cpu(), cpu);
    assert_eq!(machine.current_handle(), main);
    assert_eq!(machine.next_handle(), a);
    assert_eq!(machine.context(main).unwrap(), contexts[0]);
    assert_eq!(machine.context(a).unwrap(), contexts[1]);
    assert_eq!(machine.context(b).unwrap(), contexts[2]);

    // still refused once the trampoline has started
    machine.resume();
    machine.save_outgoing();
    assert!(!task_switch(&mut machine, a, b));
    assert_eq!(machine.next_handle(), a);

    // accepted again once the trampoline has freed the slot
    assert_eq!(machine.take_next(), a);
    assert!(!machine.switch_in_flight());
    machine.restore_incoming(a);
    machine.resume();
    machine.trap(HANDLER);
    assert!(task_switch(&mut machine, a, b));
}

/// Register preservation across switches among other tasks.
#[test]
fn registers_survive_switches_to_other_tasks() {
    let (mut machine, main, a, b) = machine_with_tasks(Chip::Esp32c3);
    let c = machine
        .add_context(new_task_context(0x4200_0300, 0xc, 0x3fca_0000))
        .unwrap();
    switch(&mut machine, main, a);

    // task A works in its registers
    edit(&mut machine, |cpu| cpu.regs.s0 = 0x1111);
    edit(&mut machine, |cpu| cpu.regs.s11 = 0x2222);
    edit(&mut machine, |cpu| cpu.regs.t3 = 0x3333);
    edit(&mut machine, |cpu| cpu.regs.a7 = 0x4444);
    edit(&mut machine, |cpu| cpu.regs.ra = 0x4200_0180);
    edit(&mut machine, |cpu| cpu.regs.sp -= 64);
    edit(&mut machine, |cpu| cpu.regs.pc = 0x4200_0144);
    let left = machine.cpu().regs;

    switch(&mut machine, a, b);
    for round in 0..25 {
        edit(&mut machine, |cpu| cpu.regs.s0 = round);
        edit(&mut machine, |cpu| cpu.regs.t3 = !round);
        edit(&mut machine, |cpu| cpu.regs.pc += 4);
        switch(&mut machine, b, c);
        edit(&mut machine, |cpu| cpu.regs.s0 = 0xdead);
        edit(&mut machine, |cpu| cpu.regs.a7 = round);
        edit(&mut machine, |cpu| cpu.regs.pc += 8);
        switch(&mut machine, c, b);
    }
    switch(&mut machine, b, a);

    assert_eq!(machine.cpu().regs.pc, 0x4200_0144);
    let back = machine.cpu().regs;
    assert_eq!(
        Registers { pc: 0, mstatus: 0, ..back },
        Registers { pc: 0, mstatus: 0, ..left }
    );
    assert_eq!(back.s0, 0x1111);
    assert_eq!(back.sp, 0x3fc9_0000 - 64);
}

/// Status invariant: the masked state of the trampoline does not reach the
/// task, and a task that had interrupts off keeps them off.
#[test]
fn resumed_task_runs_with_interrupts_as_before() {
    let (mut machine, main, a, b) = machine_with_tasks(Chip::Esp32c3);
    machine.trap(HANDLER);
    assert!(task_switch(&mut machine, main, a));
    machine.resume();
    // in the trampoline interrupts are off
    assert_eq!(machine.cpu().regs.mstatus & MSTATUS_MIE, 0);
    sys_switch(&mut machine);
    assert_eq!(machine.cpu().regs.mstatus & MSTATUS_MIE, MSTATUS_MIE);
    assert_eq!(machine.cpu().regs.mstatus & MSTATUS_MPIE, MSTATUS_MPIE);

    // a request made while the previous interrupt enable is clear resumes
    // the next task with interrupts off
    edit(&mut machine, |cpu| cpu.regs.mstatus = 0);
    edit(&mut machine, |cpu| cpu.mepc = cpu.regs.pc);
    assert!(task_switch(&mut machine, a, b));
    machine.resume();
    sys_switch(&mut machine);
    assert_eq!(machine.cpu().regs.mstatus & MSTATUS_MIE, 0);
}

/// Two tasks, each incrementing a shared counter by 1 and
/// yielding, alternated 1000 times.
#[test]
fn two_tasks_alternate_a_thousand_times() {
    let (mut machine, main, a, b) = machine_with_tasks(Chip::Esp32c3);
    setup_multitasking(&mut machine, 0, 0);
    assert!(machine.yield_enabled());
    switch(&mut machine, main, a);

    let mut counter: u32 = 0;
    let mut running = a;
    for _ in 0..1000 {
        // the running task: one increment, counted in its own s0 as well
        counter += 1;
        edit(&mut machine, |cpu| cpu.regs.s0 += 1);
        edit(&mut machine, |cpu| cpu.regs.pc += 4);
        yield_task(&mut machine);

        assert!(machine.yield_pending());
        assert!(machine.yield_enabled());
        let next = if running == a { b } else { a };
        machine.trap(HANDLER);
        assert!(task_switch_interrupt(&mut machine, running, next));
        assert!(!machine.yield_pending());
        machine.resume();
        sys_switch(&mut machine);
        running = next;
    }

    assert_eq!(counter, 1000);
    // each task made half of the increments, none lost and none twice
    assert_eq!(running, a);
    assert_eq!(machine.cpu().regs.s0, 500);
    assert_eq!(machine.context(b).unwrap().s0, 500);
    assert_eq!(machine.context(b).unwrap().pc, 0x4200_0200 + 4 * 500);
    assert_eq!(machine.cpu().regs.pc, 0x4200_0100 + 4 * 500);
}

/// A tick arrives while the switch of the previous tick is in
/// the trampoline.
#[test]
fn tick_during_trampoline_waits_for_its_end() {
    let (mut machine, main, a, b) = machine_with_tasks(Chip::Esp32);
    setup_multitasking(&mut machine, 0, 0);

    // first tick: passed on through the software interrupt
    machine.raise_tick();
    machine.trap(HANDLER);
    timer_tick_handler(&mut machine, main, a);
    assert!(!machine.tick_pending());
    assert!(machine.yield_pending());
    assert!(!machine.switch_in_flight());
    machine.resume();

    // the software interrupt requests the switch
    machine.trap(HANDLER);
    assert!(task_switch_interrupt(&mut machine, main, a));
    machine.resume();
    machine.save_outgoing();

    // second tick, mid-trampoline
    machine.raise_tick();
    let contexts = [
        machine.context(main).unwrap(),
        machine.context(a).unwrap(),
        machine.context(b).unwrap(),
    ];
    let cpu = machine.cpu();
    timer_tick_handler(&mut machine, a, b);
    assert_eq!(machine.current_handle(), main);
    assert_eq!(machine.next_handle(), a);
    assert_eq!(machine.cpu(), cpu);
    assert_eq!(machine.context(main).unwrap(), contexts[0]);
    assert_eq!(machine.context(a).unwrap(), contexts[1]);
    assert_eq!(machine.context(b).unwrap(), contexts[2]);
    assert!(machine.yield_pending());

    // the first switch completes
    let next = machine.take_next();
    machine.restore_incoming(next);
    machine.resume();
    assert_eq!(machine.cpu().regs.pc, 0x4200_0100);
    assert!(!machine.switch_in_flight());

    // only now the second switch runs
    machine.trap(HANDLER);
    assert!(task_switch_interrupt(&mut machine, a, b));
    machine.resume();
    sys_switch(&mut machine);
    assert_eq!(machine.cpu().regs.pc, 0x4200_0200);
    assert_eq!(machine.context(a).unwrap().pc, 0x4200_0100);
}

#[test]
fn tick_switches_directly_where_priorities_agree() {
    let (mut machine, main, a, b) = machine_with_tasks(Chip::Esp32s3);
    machine.raise_tick();
    assert!(machine.tick_pending());
    machine.trap(HANDLER);
    timer_tick_handler(&mut machine, main, a);
    assert!(!machine.tick_pending());
    assert!(!machine.yield_pending());
    assert_eq!(machine.next_handle(), a);
    assert_eq!(machine.cpu().mepc, TRAMPOLINE);

    // a tick during that switch is refused and leaves the request alone
    machine.raise_tick();
    timer_tick_handler(&mut machine, a, b);
    assert!(!machine.tick_pending());
    assert_eq!(machine.current_handle(), main);
    assert_eq!(machine.next_handle(), a);
}

#[test]
fn yield_is_latched_while_masked() {
    let (mut machine, _main, _a, _b) = machine_with_tasks(Chip::Esp32);
    assert_eq!(Chip::Esp32.sw_interrupt(), 1 << 29);
    assert_eq!(Chip::Esp32s2.sw_interrupt(), 1 << 7);
    assert!(Chip::Esp32.tick_redirects());
    assert!(!Chip::Esp32s3.tick_redirects());

    assert!(!machine.yield_enabled());
    yield_task(&mut machine);
    yield_task(&mut machine);
    assert!(machine.yield_pending());
    assert!(!machine.yield_due());
    assert_eq!(machine.interrupt(), 1 << 29);

    machine.enable_mask(0x3);
    setup_multitasking(&mut machine, 0x0018_0000, 0x4000);
    assert_eq!(machine.intenable(), (1 << 29) | 0x0018_0000 | 0x4000 | 0x3);
    assert!(machine.yield_enabled());
    assert!(machine.yield_pending());
    assert!(machine.yield_due());

    disable_multitasking(&mut machine);
    assert_eq!(machine.intenable(), 0x0018_0000 | 0x4000 | 0x3);
    assert!(!machine.yield_enabled());

    machine.set_interrupts(0x5);
    machine.clear_interrupts(1 << 29);
    assert_eq!(machine.interrupt(), 0x5);
    assert_eq!(machine.disable_mask(0x1), 0x0018_0000 | 0x4000 | 0x3);
    assert_eq!(machine.disable_interrupts(), 0x0018_0000 | 0x4000 | 0x2);
    assert_eq!(machine.intenable(), 0);
    machine.clear_timer_interrupt();
    machine.clear_timer_interrupt();
    assert!(!machine.tick_pending());
}
