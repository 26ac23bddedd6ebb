//! Backtrace frames and the check that guards the walk up the stack.

use crate::chip::{dram_high, dram_low, Chip};
use vstd::prelude::*;

verus! {

/// How far before a return address the call that pushed it is reported: the
/// address of the call itself gives the better line, and a call is at most
/// this long.
pub const RA_OFFSET: usize = 4;

/// One frame of a backtrace.
pub struct BacktraceFrame {
    pc: usize,
}

impl BacktraceFrame {
    #[verifier::type_invariant]
    spec fn wf(self) -> bool {
        self.pc >= RA_OFFSET
    }

    /// The return address that the frame was made from.
    pub closed spec fn return_address(self) -> usize {
        self.pc
    }

    /// The frame of the return address `pc`; none for an address at which
    /// no call can end.
    pub fn new(pc: usize) -> (frame: Option<BacktraceFrame>)
        ensures
            pc >= RA_OFFSET <==> frame is Some,
            frame matches Some(f) ==> f.return_address() == pc,
    {
        if pc >= RA_OFFSET {
            Some(BacktraceFrame { pc })
        } else {
            None
        }
    }

    /// The address of the call that the frame stands for.
    pub fn program_counter(&self) -> (pc: usize)
        ensures
            pc == self.return_address() - RA_OFFSET,
    {
        proof {
            use_type_invariant(self);
        }
        self.pc - RA_OFFSET
    }
}

/// The number of frames that a backtrace holds at most.
pub const MAX_BACKTRACE_ADDRESSES: usize = 10;

#[verifier::external_type_specification]
#[verifier::external_body]
#[verifier::reject_recursive_types(T)]
pub struct ExHeaplessVec<T, const N: usize>(heapless::Vec<T, N>);

/// The return addresses of the frames that a bounded vector holds, in
/// their order.
pub uninterp spec fn held(frames: heapless::Vec<BacktraceFrame, 10>) -> Seq<usize>;

/// `heapless::Vec::new`: an empty vector.
#[verifier::external_body]
fn frames_new() -> (frames: heapless::Vec<BacktraceFrame, 10>)
    ensures
        held(frames) == Seq::<usize>::empty(),
{
    heapless::Vec::new()
}

/// `heapless::Vec::is_full`: whether the vector holds as many items as its
/// capacity, which is 10.
#[verifier::external_body]
fn frames_is_full(frames: &heapless::Vec<BacktraceFrame, 10>) -> (full: bool)
    ensures
        full == (held(*frames).len() == MAX_BACKTRACE_ADDRESSES),
{
    frames.is_full()
}

/// `heapless::Vec::push`: appends the item if the vector holds fewer items
/// than its capacity, which is 10, and else hands the item back and leaves
/// the vector as it is.
#[verifier::external_body]
fn frames_push(frames: &mut heapless::Vec<BacktraceFrame, 10>, frame: BacktraceFrame) -> (pushed:
    Result<(), BacktraceFrame>)
    ensures
        held(*old(frames)).len() < MAX_BACKTRACE_ADDRESSES <==> pushed is Ok,
        pushed is Ok ==> held(*final(frames)) == held(*old(frames)).push(frame.return_address()),
        pushed matches Err(back) ==> back == frame && held(*final(frames)) == held(*old(frames)),
{
    frames.push(frame)
}

/// `heapless::Vec::as_slice`: the items of the vector, in their order.
#[verifier::external_body]
fn frames_as_slice(frames: &heapless::Vec<BacktraceFrame, 10>) -> (slice: &[BacktraceFrame])
    ensures
        slice@.len() == held(*frames).len(),
        forall|i: int|
            0 <= i < slice@.len() ==> (#[trigger] slice@[i]).return_address() == held(*frames)[i],
{
    frames.as_slice()
}

/// A backtrace: the frames of the calls that led here, innermost first.
pub struct Backtrace(heapless::Vec<BacktraceFrame, 10>);

impl View for Backtrace {
    type V = Seq<usize>;

    closed spec fn view(&self) -> Seq<usize> {
        held(self.0)
    }
}

/// The frames after the walk up the stack has read the return address
/// `address` and, for the next step, the frame pointer `fp`: none is added
/// at the end of the stack, where the address is 0 or the frame pointer
/// unusable, nor while frames are still left out, nor for an address at
/// which no call can end.
pub open spec fn recorded(
    frames: Seq<usize>,
    chip: Chip,
    address: u32,
    fp: u32,
    suppress: u32,
) -> Seq<usize> {
    if address == 0 || !valid_ram_address(chip, fp) || suppress != 0 || address < RA_OFFSET {
        frames
    } else {
        frames.push(address as usize)
    }
}

/// Whether the walk goes on after that step, and with how many frames
/// still to leave out: it stops at the end of the stack and when the
/// backtrace is full.
pub open spec fn walk_on(
    frames: Seq<usize>,
    chip: Chip,
    address: u32,
    fp: u32,
    suppress: u32,
) -> Option<u32> {
    if address == 0 || !valid_ram_address(chip, fp) || recorded(
        frames,
        chip,
        address,
        fp,
        suppress,
    ).len() >= MAX_BACKTRACE_ADDRESSES {
        None
    } else if suppress == 0 {
        Some(0u32)
    } else {
        Some((suppress - 1) as u32)
    }
}

impl Backtrace {
    /// The backtrace holds no more than it has room for.
    pub open spec fn wf(&self) -> bool {
        self@.len() <= MAX_BACKTRACE_ADDRESSES
    }

    /// An empty backtrace.
    pub fn new() -> (backtrace: Backtrace)
        ensures
            backtrace.wf(),
            backtrace@.len() == 0,
    {
        Backtrace(frames_new())
    }

    /// Whether a walk up the stack can start at the frame pointer `fp`.
    pub fn starts(chip: Chip, fp: u32) -> (valid: bool)
        ensures
            valid == valid_ram_address(chip, fp),
    {
        is_valid_ram_address(chip, fp)
    }

    /// Whether the backtrace has no room left.
    pub fn is_full(&self) -> (full: bool)
        ensures
            full == (self@.len() == MAX_BACKTRACE_ADDRESSES),
    {
        frames_is_full(&self.0)
    }

    /// One step of the walk up the stack, in a backtrace with room left: the
    /// walk has read the return address `address` and the frame pointer `fp`
    /// of the caller, and still leaves `suppress` frames out. Returns the
    /// number of frames to leave out from now on, or `None` where the walk
    /// ends.
    pub fn record(&mut self, chip: Chip, address: u32, fp: u32, suppress: u32) -> (next: Option<
        u32,
    >)
        requires
            old(self)@.len() < MAX_BACKTRACE_ADDRESSES,
        ensures
            final(self).wf(),
            final(self)@ == recorded(old(self)@, chip, address, fp, suppress),
            next == walk_on(old(self)@, chip, address, fp, suppress),
    {
        if address == 0 {
            return None;
        }
        if !is_valid_ram_address(chip, fp) {
            return None;
        }
        let mut suppress = suppress;
        if suppress == 0 {
            if let Some(frame) = BacktraceFrame::new(address as usize) {
                let _ = frames_push(&mut self.0, frame);
            }
        } else {
            suppress -= 1;
        }
        if frames_is_full(&self.0) {
            None
        } else {
            Some(suppress)
        }
    }

    /// Returns the backtrace frames as a slice.
    pub fn frames(&self) -> (frames: &[BacktraceFrame])
        ensures
            frames@.len() == self@.len(),
            forall|i: int|
                0 <= i < frames@.len() ==> (#[trigger] frames@[i]).return_address() == self@[i],
    {
        frames_as_slice(&self.0)
    }
}

/// Whether a frame pointer may be followed on `chip`: it is 16-byte aligned
/// and lies in the data RAM, its end included.
pub open spec fn valid_ram_address(chip: Chip, address: u32) -> bool {
    address % 16 == 0 && dram_low(chip) <= address <= dram_high(chip)
}

/// Ensure that the address is in DRAM and that it is 16-byte aligned.
pub fn is_valid_ram_address(chip: Chip, address: u32) -> (valid: bool)
    ensures
        valid == valid_ram_address(chip, address),
{
    assert(address & 0xF == address % 16) by (bit_vector);
    if (address & 0xF) != 0 {
        return false;
    }
    if !(chip.dram_low() <= address && address <= chip.dram_high()) {
        return false;
    }
    true
}

/// The value to write to the options register to stall the cores: its low
/// four bits replaced by `0b1010`.
pub open spec fn stall_options(options0: u32) -> u32 {
    options0 & !0b1111u32 | 0b1010u32
}

/// The value to write to the stall register to stall both cores: `0x21` in
/// each of its two fields of six bits, at bits 20 and 26.
pub open spec fn stall_request(sw_cpu_stall: u32) -> u32 {
    sw_cpu_stall & !(0b111111u32 << 20) & !(0b111111u32 << 26) | (0x21u32 << 20) | (0x21u32 << 26)
}

/// What halting a chip with more than one core writes to the options
/// register and to the stall register, from what they hold.
pub fn halt(options0: u32, sw_cpu_stall: u32) -> (written: (u32, u32))
    ensures
        written == (stall_options(options0), stall_request(sw_cpu_stall)),
{
    (
        options0 & !0b1111u32 | 0b1010u32,
        sw_cpu_stall & !(0b111111u32 << 20) & !(0b111111u32 << 26) | (0x21u32 << 20) | (0x21u32
            << 26),
    )
}

} // verus!
