//! Register contexts and the construction of a task's first context.

use vstd::prelude::*;

verus! {

/// Alignment that the stack pointer of a task has before its first resume.
pub const STACK_ALIGN: usize = 16;

/// Registers saved / restored
#[derive(Debug, Clone, Copy, PartialEq, Eq, Structural)]
pub struct Registers {
    /// Return address, stores the address to return to after a function call or
    /// interrupt.
    pub ra: usize,
    /// Temporary register t0, used for intermediate values.
    pub t0: usize,
    /// Temporary register t1, used for intermediate values.
    pub t1: usize,
    /// Temporary register t2, used for intermediate values.
    pub t2: usize,
    /// Temporary register t3, used for intermediate values.
    pub t3: usize,
    /// Temporary register t4, used for intermediate values.
    pub t4: usize,
    /// Temporary register t5, used for intermediate values.
    pub t5: usize,
    /// Temporary register t6, used for intermediate values.
    pub t6: usize,
    /// Argument register a0, typically used to pass the first argument to a
    /// function.
    pub a0: usize,
    /// Argument register a1, typically used to pass the second argument to a
    /// function.
    pub a1: usize,
    /// Argument register a2, typically used to pass the third argument to a
    /// function.
    pub a2: usize,
    /// Argument register a3, typically used to pass the fourth argument to a
    /// function.
    pub a3: usize,
    /// Argument register a4, typically used to pass the fifth argument to a
    /// function.
    pub a4: usize,
    /// Argument register a5, typically used to pass the sixth argument to a
    /// function.
    pub a5: usize,
    /// Argument register a6, typically used to pass the seventh argument to a
    /// function.
    pub a6: usize,
    /// Argument register a7, typically used to pass the eighth argument to a
    /// function.
    pub a7: usize,
    /// Saved register s0, used to hold values across function calls.
    pub s0: usize,
    /// Saved register s1, used to hold values across function calls.
    pub s1: usize,
    /// Saved register s2, used to hold values across function calls.
    pub s2: usize,
    /// Saved register s3, used to hold values across function calls.
    pub s3: usize,
    /// Saved register s4, used to hold values across function calls.
    pub s4: usize,
    /// Saved register s5, used to hold values across function calls.
    pub s5: usize,
    /// Saved register s6, used to hold values across function calls.
    pub s6: usize,
    /// Saved register s7, used to hold values across function calls.
    pub s7: usize,
    /// Saved register s8, used to hold values across function calls.
    pub s8: usize,
    /// Saved register s9, used to hold values across function calls.
    pub s9: usize,
    /// Saved register s10, used to hold values across function calls.
    pub s10: usize,
    /// Saved register s11, used to hold values across function calls.
    pub s11: usize,
    /// Global pointer register, holds the address of the global data area.
    pub gp: usize,
    /// Thread pointer register, holds the address of the thread-local storage
    /// area.
    pub tp: usize,
    /// Stack pointer register, holds the address of the top of the stack.
    pub sp: usize,
    /// Program counter, stores the address of the next instruction to be
    /// executed.
    pub pc: usize,
    /// The mstatus which will be loaded before MRET
    pub mstatus: usize,
}

impl Registers {
    /// The context in which every register holds zero.
    pub open spec fn zeroed() -> Registers {
        Registers {
            ra: 0,
            t0: 0,
            t1: 0,
            t2: 0,
            t3: 0,
            t4: 0,
            t5: 0,
            t6: 0,
            a0: 0,
            a1: 0,
            a2: 0,
            a3: 0,
            a4: 0,
            a5: 0,
            a6: 0,
            a7: 0,
            s0: 0,
            s1: 0,
            s2: 0,
            s3: 0,
            s4: 0,
            s5: 0,
            s6: 0,
            s7: 0,
            s8: 0,
            s9: 0,
            s10: 0,
            s11: 0,
            gp: 0,
            tp: 0,
            sp: 0,
            pc: 0,
            mstatus: 0,
        }
    }

    /// The registers that the trampoline dumps and reloads: every field but
    /// `pc` and `mstatus`, which come from control registers.
    pub open spec fn general(self) -> Registers {
        Registers { pc: 0, mstatus: 0, ..self }
    }
}

impl Default for Registers {
    fn default() -> (r: Registers)
        ensures
            r == Registers::zeroed(),
    {
        Registers {
            ra: 0,
            t0: 0,
            t1: 0,
            t2: 0,
            t3: 0,
            t4: 0,
            t5: 0,
            t6: 0,
            a0: 0,
            a1: 0,
            a2: 0,
            a3: 0,
            a4: 0,
            a5: 0,
            a6: 0,
            a7: 0,
            s0: 0,
            s1: 0,
            s2: 0,
            s3: 0,
            s4: 0,
            s5: 0,
            s6: 0,
            s7: 0,
            s8: 0,
            s9: 0,
            s10: 0,
            s11: 0,
            gp: 0,
            tp: 0,
            sp: 0,
            pc: 0,
            mstatus: 0,
        }
    }
}

/// `stack_top` rounded down to a multiple of [`STACK_ALIGN`].
pub open spec fn align_stack(stack_top: usize) -> usize {
    (stack_top - stack_top % STACK_ALIGN) as usize
}

/// The context from which a task that has never run is resumed.
pub open spec fn initial_context(task: usize, param: usize, stack_top: usize) -> Registers {
    Registers { pc: task, a0: param, sp: align_stack(stack_top), ..Registers::zeroed() }
}

/// Builds the first context of a task: it starts at `task` with `param` in
/// `a0` and the stack pointer at `stack_top` rounded down to 16 bytes; every
/// other register is zero.
pub fn new_task_context(task: usize, param: usize, stack_top: usize) -> (ctx: Registers)
    ensures
        ctx == initial_context(task, param, stack_top),
        ctx.sp % STACK_ALIGN == 0,
        ctx.sp <= stack_top < ctx.sp + STACK_ALIGN,
{
    let stack_top: usize = stack_top - (stack_top % 16);

    Registers { pc: task, a0: param, sp: stack_top, ..Default::default() }
}

} // verus!
