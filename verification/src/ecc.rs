//! # Elliptic Curve Cryptography (ECC) Accelerator
//!
//! ## Overview
//!
//! Elliptic Curve Cryptography (ECC) is an approach to public-key cryptography
//! based on the algebraic structure of elliptic curves. ECC allows smaller
//! keys compared to RSA cryptography while providing equivalent security.
//!
//! ECC Accelerator can complete various calculation based on different
//! elliptic curves, thus accelerating ECC algorithm and ECC-derived
//! algorithms (such as ECDSA).
//!
//! Inputs of the ECC hardware accelerator must be provided in big-endian
//! representation. The driver handles the inner representation of the blocks.
//!
//! The driver works on the registers and memory blocks of the accelerator as
//! plain values. The calculation itself is the accelerator's: each operation
//! takes what the accelerator left behind when it finished.

use crate::interrupt::{handler_steps, set_interrupt_handler, Cpu, HandlerStep, Interrupt};
use vstd::prelude::*;

verus! {

/// The size of a memory block of the accelerator in bytes.
pub const MEM_BLOCK_SIZE: usize = 32;

/// ECC interface error
#[derive(Debug, Clone, Copy, PartialEq, Eq, Structural)]
pub enum Error {
    /// It means the purpose of the selected block does not match the
    /// configured key purpose and the calculation will not proceed.
    SizeMismatchCurve,
    /// It means that the point is not on the curve.
    PointNotOnSelectedCurve,
}

/// Represents supported elliptic curves for cryptographic operations.
#[derive(Clone, Copy, PartialEq, Eq, Debug, Structural)]
pub enum EllipticCurve {
    /// The P-192 elliptic curve, a 192-bit curve.
    P192,
    /// The P-256 elliptic curve. a 256-bit curve.
    P256,
}

impl EllipticCurve {
    /// The size in bytes of an element of the prime field of the curve.
    pub open spec fn spec_bytes(self) -> usize {
        match self {
            EllipticCurve::P192 => 24,
            EllipticCurve::P256 => 32,
        }
    }

    /// The size in bytes of an element of the prime field of the curve.
    pub fn bytes(&self) -> (bytes: usize)
        ensures
            bytes == self.spec_bytes(),
    {
        match self {
            EllipticCurve::P192 => 24,
            EllipticCurve::P256 => 32,
        }
    }

    /// Whether each of `lens` is the size of a field element of the curve.
    pub open spec fn sizes_match(self, lens: Seq<usize>) -> bool {
        forall|i: int| 0 <= i < lens.len() ==> lens[i] == self.spec_bytes()
    }

    /// Checks the sizes `lens` of the parameters of an operation: each must
    /// be the size of a field element of the curve.
    pub fn size_check(&self, lens: &[usize]) -> (checked: Result<(), Error>)
        ensures
            self.sizes_match(lens@) <==> checked is Ok,
            checked matches Err(e) ==> e == Error::SizeMismatchCurve,
    {
        let bytes = self.bytes();

        let mut i: usize = 0;
        while i < lens.len()
            invariant
                i <= lens@.len(),
                bytes == self.spec_bytes(),
                forall|j: int| 0 <= j < i ==> lens@[j] == bytes,
            decreases lens@.len() - i,
        {
            if lens[i] != bytes {
                return Err(Error::SizeMismatchCurve);
            }
            i += 1;
        }

        Ok(())
    }
}

/// Represents the operational modes for elliptic curve or modular arithmetic
/// computations.
#[derive(Clone, Copy, PartialEq, Eq, Debug, Structural)]
pub enum WorkMode {
    /// Point multiplication mode.
    PointMultiMode,
    /// Division mode.
    DivisionMode,
    /// Point verification mode.
    PointVerif,
    /// Point verification and multiplication mode.
    PointVerifMulti,
    /// Jacobian point multiplication mode.
    JacobianPointMulti,
    /// Point addition mode.
    PointAdd,
    /// Jacobian point verification mode.
    JacobianPointVerif,
    /// Point verification and multiplication in Jacobian coordinates.
    PointVerifJacobianMulti,
    /// Modular addition mode.
    ModAdd,
    /// Modular subtraction mode.
    ModSub,
    /// Modular multiplication mode.
    ModMulti,
    /// Modular division mode.
    ModDiv,
}

impl WorkMode {
    /// The number that selects the mode in the configuration register.
    pub open spec fn spec_bits(self) -> u8 {
        match self {
            WorkMode::PointMultiMode => 0,
            WorkMode::DivisionMode => 1,
            WorkMode::PointVerif => 2,
            WorkMode::PointVerifMulti => 3,
            WorkMode::JacobianPointMulti => 4,
            WorkMode::PointAdd => 5,
            WorkMode::JacobianPointVerif => 6,
            WorkMode::PointVerifJacobianMulti => 7,
            WorkMode::ModAdd => 8,
            WorkMode::ModSub => 9,
            WorkMode::ModMulti => 10,
            WorkMode::ModDiv => 11,
        }
    }

    /// The number that selects the mode in the configuration register.
    pub fn bits(self) -> (bits: u8)
        ensures
            bits == self.spec_bits(),
    {
        match self {
            WorkMode::PointMultiMode => 0,
            WorkMode::DivisionMode => 1,
            WorkMode::PointVerif => 2,
            WorkMode::PointVerifMulti => 3,
            WorkMode::JacobianPointMulti => 4,
            WorkMode::PointAdd => 5,
            WorkMode::JacobianPointVerif => 6,
            WorkMode::PointVerifJacobianMulti => 7,
            WorkMode::ModAdd => 8,
            WorkMode::ModSub => 9,
            WorkMode::ModMulti => 10,
            WorkMode::ModDiv => 11,
        }
    }

    /// Whether the mode is one of the four modular operations.
    pub open spec fn is_modular(self) -> bool {
        self == WorkMode::ModAdd || self == WorkMode::ModSub || self == WorkMode::ModMulti || self
            == WorkMode::ModDiv
    }
}

/// `dst` after the whole words of `src` were copied into it in reverse byte
/// order, as far as both reach: with `n` the shorter of the two lengths,
/// `dst[p]` becomes `src[n - 1 - p]` for `n % 4 <= p < n`.
pub open spec fn reversed_into(src: Seq<u8>, dst: Seq<u8>) -> Seq<u8> {
    let n = if src.len() <= dst.len() {
        src.len() as int
    } else {
        dst.len() as int
    };
    Seq::new(
        dst.len(),
        |p: int|
            if n % 4 <= p < n {
                src[n - 1 - p]
            } else {
                dst[p]
            },
    )
}

/// Copies the words of `src`, big-endian, into `dst` in reverse order and
/// little-endian.
pub fn reverse_words(src: &[u8], dst: &mut [u8])
    ensures
        final(dst)@ == reversed_into(src@, old(dst)@),
{
    let n: usize = if src.len() <= dst.len() {
        src.len()
    } else {
        dst.len()
    };
    let chunks: usize = n / 4;
    let mut i: usize = 0;
    while i < chunks
        invariant
            i <= chunks,
            chunks == n / 4,
            n <= src@.len(),
            n <= dst@.len(),
            dst@.len() == old(dst)@.len(),
            forall|p: int|
                0 <= p < dst@.len() ==> #[trigger] dst@[p] == (if n - 4 * i <= p < n {
                    src@[n - 1 - p]
                } else {
                    old(dst)@[p]
                }),
        decreases chunks - i,
    {
        let a: usize = 4 * i;
        let b: usize = n - 4 * (i + 1);
        dst[b] = src[a + 3];
        dst[b + 1] = src[a + 2];
        dst[b + 2] = src[a + 1];
        dst[b + 3] = src[a];
        i += 1;
    }
    assert(n - 4 * chunks == n % 4);
    assert(dst@ =~= reversed_into(src@, old(dst)@));
}

/// The configuration register of the accelerator.
#[derive(Debug, Clone, Copy, PartialEq, Eq, Structural)]
pub struct MultConf {
    /// Set to start a calculation; the accelerator clears it when done.
    pub start: bool,
    /// The number of the work mode.
    pub work_mode: u8,
    /// The curve.
    pub key_length: EllipticCurve,
    /// Whether the point that was verified is on the curve; valid when a
    /// calculation is done.
    pub verification_result: bool,
}

impl MultConf {
    /// The register at reset.
    pub open spec fn spec_reset() -> MultConf {
        MultConf {
            start: false,
            work_mode: 0,
            key_length: EllipticCurve::P192,
            verification_result: false,
        }
    }

    /// The register as written to start a calculation.
    pub open spec fn started(mode: WorkMode, curve: EllipticCurve) -> MultConf {
        MultConf {
            start: true,
            work_mode: mode.spec_bits(),
            key_length: curve,
            verification_result: false,
        }
    }
}

/// The power control of the memory of the accelerator.
#[derive(Debug, Clone, Copy, PartialEq, Eq, Structural)]
pub struct PowerControl {
    /// Powers the memory down.
    pub mem_pd: bool,
    /// Forces the memory up.
    pub mem_force_pu: bool,
    /// Forces the memory down.
    pub mem_force_pd: bool,
}

/// The memory blocks of the accelerator, 32 bytes each.
#[derive(Debug, Clone, Copy)]
pub struct Memory {
    /// The scalar.
    pub k: [u8; 32],
    /// The x coordinate of the point P.
    pub px: [u8; 32],
    /// The y coordinate of the point P.
    pub py: [u8; 32],
    /// The x coordinate of the point Q.
    pub qx: [u8; 32],
    /// The y coordinate of the point Q.
    pub qy: [u8; 32],
    /// The z coordinate of the point Q.
    pub qz: [u8; 32],
}

/// The registers and the memory of the accelerator.
#[derive(Debug, Clone, Copy)]
pub struct RegisterBlock {
    /// The configuration register.
    pub mult_conf: MultConf,
    /// The power control of the memory.
    pub power: PowerControl,
    /// The memory blocks.
    pub mem: Memory,
}

/// What the accelerator leaves behind when a calculation is done.
#[derive(Debug, Clone, Copy)]
pub struct Completion {
    /// Whether the point that was verified is on the curve.
    pub verification_result: bool,
    /// The memory blocks, with the results in them.
    pub mem: Memory,
}

/// A block that holds `data`, reversed word by word, from its start and
/// zeros after it.
pub open spec fn block_reversed(data: Seq<u8>) -> Seq<u8> {
    reversed_into(data, Seq::new(MEM_BLOCK_SIZE as nat, |i: int| 0u8))
}

/// `block` with `data` written from its start.
pub open spec fn block_written(block: Seq<u8>, data: Seq<u8>) -> Seq<u8> {
    Seq::new(
        block.len(),
        |i: int|
            if i < data.len() {
                data[i]
            } else {
                block[i]
            },
    )
}

/// The first bytes of `block`, as many as `out` holds.
pub open spec fn block_read(block: Seq<u8>, out: Seq<u8>) -> Seq<u8> {
    Seq::new(out.len(), |i: int| block[i])
}

/// Writes `data` to the start of `block`.
pub fn write_mem(block: &mut [u8; 32], data: &[u8])
    requires
        data@.len() <= MEM_BLOCK_SIZE,
    ensures
        final(block)@ == block_written(old(block)@, data@),
{
    let mut i: usize = 0;
    while i < data.len()
        invariant
            i <= data@.len() <= MEM_BLOCK_SIZE,
            block@.len() == MEM_BLOCK_SIZE,
            forall|p: int|
                0 <= p < 32 ==> #[trigger] block@[p] == (if p < i {
                    data@[p]
                } else {
                    old(block)@[p]
                }),
        decreases data@.len() - i,
    {
        block[i] = data[i];
        i += 1;
    }
    assert(block@ =~= block_written(old(block)@, data@));
}

/// Writes `data` to `block` with its words in reverse order, and zeros
/// where `data` does not reach.
pub fn write_mem_reversed(block: &mut [u8; 32], data: &[u8])
    ensures
        final(block)@ == block_reversed(data@),
{
    let mut tmp = [0_u8;32];
    assert(tmp@ =~= Seq::new(MEM_BLOCK_SIZE as nat, |i: int| 0u8));
    reverse_words(data, &mut tmp);
    *block = tmp;
}

/// Reads the start of `block` into `out`.
pub fn read_mem(block: &[u8; 32], out: &mut [u8])
    requires
        old(out)@.len() <= MEM_BLOCK_SIZE,
    ensures
        final(out)@ == block_read(block@, old(out)@),
{
    let mut i: usize = 0;
    while i < out.len()
        invariant
            i <= out@.len() <= MEM_BLOCK_SIZE,
            out@.len() == old(out)@.len(),
            block@.len() == MEM_BLOCK_SIZE,
            forall|p: int| 0 <= p < i ==> #[trigger] out@[p] == block@[p],
        decreases out@.len() - i,
    {
        out[i] = block[i];
        i += 1;
    }
    assert(out@ =~= block_read(block@, old(out)@));
}

/// Reads `block` into `out` with its words in reverse order.
pub fn read_mem_reversed(block: &[u8; 32], out: &mut [u8])
    ensures
        final(out)@ == reversed_into(block@, old(out)@),
{
    let tmp: [u8; 32] = *block;
    reverse_words(tmp.as_slice(), out);
}

/// The ECC Accelerator driver instance
pub struct Ecc {
    ecc: RegisterBlock,
}

impl View for Ecc {
    type V = RegisterBlock;

    closed spec fn view(&self) -> RegisterBlock {
        self.ecc
    }
}

impl Ecc {
    /// Create a new instance in blocking mode: the memory of the
    /// accelerator is powered up.
    pub fn new(ecc: RegisterBlock) -> (driver: Self)
        ensures
            driver@.mult_conf == ecc.mult_conf,
            driver@.mem == ecc.mem,
            driver@.power == (PowerControl {
                mem_pd: false,
                mem_force_pu: true,
                mem_force_pd: false,
            }),
    {
        let mut ecc = ecc;
        ecc.power.mem_force_pd = false;
        ecc.power.mem_force_pu = true;
        ecc.power.mem_pd = false;
        Self { ecc }
    }

    /// Gives the accelerator up: its memory is powered down.
    pub fn release(self) -> (ecc: RegisterBlock)
        ensures
            ecc.mult_conf == self@.mult_conf,
            ecc.mem == self@.mem,
            ecc.power == (PowerControl { mem_pd: true, mem_force_pu: false, mem_force_pd: false }),
    {
        let mut ecc = self.ecc;
        ecc.power.mem_force_pd = false;
        ecc.power.mem_force_pu = false;
        ecc.power.mem_pd = true;
        ecc
    }

    /// The registers and the memory of the accelerator.
    pub fn regs(&self) -> (regs: &RegisterBlock)
        ensures
            *regs == self@,
    {
        &self.ecc
    }

    /// Resets the ECC peripheral.
    pub fn reset(&mut self)
        ensures
            final(self)@.mult_conf == MultConf::spec_reset(),
            final(self)@.mem == old(self)@.mem,
            final(self)@.power == old(self)@.power,
    {
        self.ecc.mult_conf = MultConf {
            start: false,
            work_mode: 0,
            key_length: EllipticCurve::P192,
            verification_result: false,
        };
    }

    /// Register an interrupt handler for the ECC peripheral: the steps that
    /// do so from the core `current`.
    ///
    /// Note that this will replace any previously registered interrupt
    /// handlers.
    pub fn set_interrupt_handler(&mut self, current: Cpu, multi_core: bool) -> (steps: Vec<
        HandlerStep,
    >)
        ensures
            steps@ == handler_steps(Interrupt::ECC, current, multi_core),
            final(self)@ == old(self)@,
    {
        set_interrupt_handler(Interrupt::ECC, current, multi_core)
    }

    /// Whether a calculation is under way.
    pub fn is_busy(&self) -> (busy: bool)
        ensures
            busy == self@.mult_conf.start,
    {
        self.ecc.mult_conf.start
    }

    /// Starts a calculation in `mode` on `curve`.
    pub fn start_operation(&mut self, mode: WorkMode, curve: EllipticCurve)
        ensures
            final(self)@.mult_conf == MultConf::started(mode, curve),
            final(self)@.mem == old(self)@.mem,
            final(self)@.power == old(self)@.power,
    {
        self.ecc.mult_conf = MultConf {
            start: true,
            work_mode: mode.bits(),
            key_length: curve,
            verification_result: false,
        };
    }

    /// Takes what the accelerator left behind when it finished: the start
    /// bit is clear, the verification result and the memory are its.
    pub fn complete(&mut self, done: &Completion)
        ensures
            final(self)@.mult_conf == (MultConf {
                start: false,
                verification_result: done.verification_result,
                ..old(self)@.mult_conf
            }),
            final(self)@.mem == done.mem,
            final(self)@.power == old(self)@.power,
    {
        self.ecc.mult_conf.start = false;
        self.ecc.mult_conf.verification_result = done.verification_result;
        self.ecc.mem = done.mem;
    }

    /// Succeeds if the accelerator found the point on the curve; if not, it
    /// resets the configuration register and fails.
    pub fn check_point_verification_result(&mut self) -> (checked: Result<(), Error>)
        ensures
            old(self)@.mult_conf.verification_result <==> checked is Ok,
            checked is Ok ==> final(self)@ == old(self)@,
            checked matches Err(e) ==> {
                &&& e == Error::PointNotOnSelectedCurve
                &&& final(self)@.mult_conf == MultConf::spec_reset()
                &&& final(self)@.mem == old(self)@.mem
                &&& final(self)@.power == old(self)@.power
            },
    {
        if self.ecc.mult_conf.verification_result {
            Ok(())
        } else {
            self.reset();
            Err(Error::PointNotOnSelectedCurve)
        }
    }

    /// The registers after the accelerator has finished the calculation that
    /// was started in `mode` on `curve`, before the result is looked at.
    pub open spec fn finished(
        self,
        mode: WorkMode,
        curve: EllipticCurve,
        done: Completion,
    ) -> RegisterBlock {
        RegisterBlock {
            mult_conf: MultConf {
                start: false,
                work_mode: mode.spec_bits(),
                key_length: curve,
                verification_result: done.verification_result,
            },
            power: self@.power,
            mem: done.mem,
        }
    }

    /// The registers after a calculation with verification that was started
    /// in `mode` on `curve`: as the accelerator left them if it found the
    /// point on the curve, else with the configuration register reset.
    pub open spec fn verified(
        self,
        mode: WorkMode,
        curve: EllipticCurve,
        done: Completion,
    ) -> RegisterBlock {
        if done.verification_result {
            self.finished(mode, curve, done)
        } else {
            RegisterBlock {
                mult_conf: MultConf::spec_reset(),
                power: self@.power,
                mem: done.mem,
            }
        }
    }

    /// # Base point multiplication
    ///
    /// Base Point Multiplication can be represented as:
    /// (Q_x, Q_y) = k * (P_x, P_y)
    ///
    /// Output is stored in `x` and `y`, as `done` holds it.
    ///
    /// # Error
    ///
    /// This function will return an error if any bitlength value is different
    /// from the bitlength of the prime fields of the curve.
    pub fn affine_point_multiplication(
        &mut self,
        curve: EllipticCurve,
        k: &[u8],
        x: &mut [u8],
        y: &mut [u8],
        done: &Completion,
    ) -> (result: Result<(), Error>)
        ensures
            (k@.len() == curve.spec_bytes() && old(x)@.len() == curve.spec_bytes() && old(y)@.len()
                == curve.spec_bytes()) <==> result is Ok,
            result matches Err(e) ==> {
                &&& e == Error::SizeMismatchCurve
                &&& final(self)@ == old(self)@
                &&& final(x)@ == old(x)@
                &&& final(y)@ == old(y)@
            },
            result is Ok ==> {
                &&& final(self)@ == old(self).finished(WorkMode::PointMultiMode, curve, *done)
                &&& final(x)@ == reversed_into(done.mem.px@, old(x)@)
                &&& final(y)@ == reversed_into(done.mem.py@, old(y)@)
            },
    {
        let lens = [k.len(), x.len(), y.len()];
        curve.size_check(lens.as_slice())?;

        write_mem_reversed(&mut self.ecc.mem.k, k);
        write_mem_reversed(&mut self.ecc.mem.px, x);
        write_mem_reversed(&mut self.ecc.mem.py, y);

        self.start_operation(WorkMode::PointMultiMode, curve);
        self.complete(done);

        read_mem_reversed(&self.ecc.mem.px, x);
        read_mem_reversed(&self.ecc.mem.py, y);

        Ok(())
    }

    /// # Finite Field Division
    ///
    /// Finite Field Division can be represented as:
    /// Result = P_y * k^{-1} mod p
    ///
    /// Output is stored in `y`, as `done` holds it.
    ///
    /// # Error
    ///
    /// This function will return an error if any bitlength value is different
    /// from the bitlength of the prime fields of the curve.
    pub fn finite_field_division(
        &mut self,
        curve: EllipticCurve,
        k: &[u8],
        y: &mut [u8],
        done: &Completion,
    ) -> (result: Result<(), Error>)
        ensures
            (k@.len() == curve.spec_bytes() && old(y)@.len() == curve.spec_bytes()) <==> result
                is Ok,
            result matches Err(e) ==> {
                &&& e == Error::SizeMismatchCurve
                &&& final(self)@ == old(self)@
                &&& final(y)@ == old(y)@
            },
            result is Ok ==> {
                &&& final(self)@ == old(self).finished(WorkMode::DivisionMode, curve, *done)
                &&& final(y)@ == reversed_into(done.mem.py@, old(y)@)
            },
    {
        let lens = [k.len(), y.len()];
        curve.size_check(lens.as_slice())?;

        write_mem_reversed(&mut self.ecc.mem.k, k);
        write_mem_reversed(&mut self.ecc.mem.py, y);

        self.start_operation(WorkMode::DivisionMode, curve);
        self.complete(done);

        read_mem_reversed(&self.ecc.mem.py, y);

        Ok(())
    }

    /// # Base Point Verification
    ///
    /// Base Point Verification can be used to verify if a point (Px, Py) is
    /// on a selected elliptic curve.
    ///
    /// # Error
    ///
    /// This function will return an error if any bitlength value is different
    /// from the bitlength of the prime fields of the curve.
    ///
    /// This function will return an error if the point is not on the selected
    /// elliptic curve.
    pub fn affine_point_verification(
        &mut self,
        curve: EllipticCurve,
        x: &[u8],
        y: &[u8],
        done: &Completion,
    ) -> (result: Result<(), Error>)
        ensures
            result == (if !(x@.len() == curve.spec_bytes() && y@.len() == curve.spec_bytes()) {
                Err::<(), Error>(Error::SizeMismatchCurve)
            } else if !done.verification_result {
                Err::<(), Error>(Error::PointNotOnSelectedCurve)
            } else {
                Ok::<(), Error>(())
            }),
            result == Err::<(), Error>(Error::SizeMismatchCurve) ==> final(self)@ == old(self)@,
            result != Err::<(), Error>(Error::SizeMismatchCurve) ==> final(self)@ == old(
                self,
            ).verified(WorkMode::PointVerif, curve, *done),
    {
        let lens = [x.len(), y.len()];
        curve.size_check(lens.as_slice())?;

        write_mem_reversed(&mut self.ecc.mem.px, x);
        write_mem_reversed(&mut self.ecc.mem.py, y);

        self.start_operation(WorkMode::PointVerif, curve);
        self.complete(done);
        self.check_point_verification_result()?;

        Ok(())
    }

    /// # Base Point Verification + Base Point Multiplication
    ///
    /// In this working mode, ECC first verifies if Point (P_x, P_y) is on the
    /// selected elliptic curve or not. If yes, then perform the multiplication:
    /// (Q_x, Q_y) = k * (P_x, P_y)
    ///
    /// Output is stored in `x` and `y`, as `done` holds it.
    ///
    /// # Error
    ///
    /// This function will return an error if any bitlength value is different
    /// from the bitlength of the prime fields of the curve.
    ///
    /// This function will return an error if the point is not on the selected
    /// elliptic curve.
    pub fn affine_point_verification_multiplication(
        &mut self,
        curve: EllipticCurve,
        k: &[u8],
        x: &mut [u8],
        y: &mut [u8],
        done: &Completion,
    ) -> (result: Result<(), Error>)
        ensures
            result == (if !(k@.len() == curve.spec_bytes() && old(x)@.len() == curve.spec_bytes()
                && old(y)@.len() == curve.spec_bytes()) {
                Err::<(), Error>(Error::SizeMismatchCurve)
            } else if !done.verification_result {
                Err::<(), Error>(Error::PointNotOnSelectedCurve)
            } else {
                Ok::<(), Error>(())
            }),
            result == Err::<(), Error>(Error::SizeMismatchCurve) ==> final(self)@ == old(self)@,
            result != Err::<(), Error>(Error::SizeMismatchCurve) ==> final(self)@ == old(
                self,
            ).verified(WorkMode::PointVerifMulti, curve, *done),
            result is Err ==> final(x)@ == old(x)@ && final(y)@ == old(y)@,
            result is Ok ==> {
                &&& final(x)@ == reversed_into(done.mem.px@, old(x)@)
                &&& final(y)@ == reversed_into(done.mem.py@, old(y)@)
            },
    {
        let lens = [k.len(), x.len(), y.len()];
        curve.size_check(lens.as_slice())?;

        write_mem_reversed(&mut self.ecc.mem.k, k);
        write_mem_reversed(&mut self.ecc.mem.px, x);
        write_mem_reversed(&mut self.ecc.mem.py, y);

        self.start_operation(WorkMode::PointVerifMulti, curve);
        self.complete(done);
        self.check_point_verification_result()?;

        read_mem_reversed(&self.ecc.mem.px, x);
        read_mem_reversed(&self.ecc.mem.py, y);

        Ok(())
    }

    /// # Jacobian Point Multiplication
    ///
    /// Jacobian Point Multiplication can be represented as:
    /// (Q_x, Q_y, Q_z) = k * (P_x, P_y, 1)
    ///
    /// Output is stored in `x`, `y`, and `k`, as `done` holds it.
    ///
    /// # Error
    ///
    /// This function will return an error if any bitlength value is different
    /// from the bitlength of the prime fields of the curve.
    pub fn jacobian_point_multiplication(
        &mut self,
        curve: EllipticCurve,
        k: &mut [u8],
        x: &mut [u8],
        y: &mut [u8],
        done: &Completion,
    ) -> (result: Result<(), Error>)
        ensures
            (old(k)@.len() == curve.spec_bytes() && old(x)@.len() == curve.spec_bytes() && old(
                y,
            )@.len() == curve.spec_bytes()) <==> result is Ok,
            result matches Err(e) ==> {
                &&& e == Error::SizeMismatchCurve
                &&& final(self)@ == old(self)@
                &&& final(k)@ == old(k)@
                &&& final(x)@ == old(x)@
                &&& final(y)@ == old(y)@
            },
            result is Ok ==> {
                &&& final(self)@ == old(self).finished(WorkMode::JacobianPointMulti, curve, *done)
                &&& final(x)@ == reversed_into(done.mem.px@, old(x)@)
                &&& final(y)@ == reversed_into(done.mem.py@, old(y)@)
                &&& final(k)@ == reversed_into(done.mem.k@, old(k)@)
            },
    {
        let lens = [k.len(), x.len(), y.len()];
        curve.size_check(lens.as_slice())?;

        write_mem_reversed(&mut self.ecc.mem.k, k);
        write_mem_reversed(&mut self.ecc.mem.px, x);
        write_mem_reversed(&mut self.ecc.mem.py, y);

        self.start_operation(WorkMode::JacobianPointMulti, curve);
        self.complete(done);

        read_mem_reversed(&self.ecc.mem.px, x);
        read_mem_reversed(&self.ecc.mem.py, y);
        read_mem_reversed(&self.ecc.mem.k, k);

        Ok(())
    }

    /// # Jacobian Point Verification
    ///
    /// Jacobian Point Verification can be used to verify if a point (Q_x, Q_y,
    /// Q_z) is on a selected elliptic curve.
    ///
    /// # Error
    ///
    /// This function will return an error if any bitlength value is different
    /// from the bitlength of the prime fields of the curve.
    ///
    /// This function will return an error if the point is not on the selected
    /// elliptic curve.
    pub fn jacobian_point_verification(
        &mut self,
        curve: EllipticCurve,
        x: &[u8],
        y: &[u8],
        z: &[u8],
        done: &Completion,
    ) -> (result: Result<(), Error>)
        ensures
            result == (if !(x@.len() == curve.spec_bytes() && y@.len() == curve.spec_bytes()
                && z@.len() == curve.spec_bytes()) {
                Err::<(), Error>(Error::SizeMismatchCurve)
            } else if !done.verification_result {
                Err::<(), Error>(Error::PointNotOnSelectedCurve)
            } else {
                Ok::<(), Error>(())
            }),
            result == Err::<(), Error>(Error::SizeMismatchCurve) ==> final(self)@ == old(self)@,
            result != Err::<(), Error>(Error::SizeMismatchCurve) ==> final(self)@ == old(
                self,
            ).verified(WorkMode::JacobianPointVerif, curve, *done),
    {
        let lens = [x.len(), y.len(), z.len()];
        curve.size_check(lens.as_slice())?;

        write_mem_reversed(&mut self.ecc.mem.px, x);
        write_mem_reversed(&mut self.ecc.mem.py, y);
        write_mem_reversed(&mut self.ecc.mem.k, z);

        self.start_operation(WorkMode::JacobianPointVerif, curve);
        self.complete(done);
        self.check_point_verification_result()?;

        Ok(())
    }

    /// # Base Point Verification + Jacobian Point Multiplication
    ///
    /// In this working mode, ECC first verifies if Point (Px, Py) is on the
    /// selected elliptic curve or not. If yes, then perform the multiplication:
    /// (Q_x, Q_y, Q_z) = k * (P_x, P_y, 1)
    ///
    /// Output is stored in `x`, `y`, and `k`, as `done` holds it.
    ///
    /// # Error
    ///
    /// This function will return an error if any bitlength value is different
    /// from the bitlength of the prime fields of the curve.
    ///
    /// This function will return an error if the point is not on the selected
    /// elliptic curve.
    pub fn affine_point_verification_jacobian_multiplication(
        &mut self,
        curve: EllipticCurve,
        k: &mut [u8],
        x: &mut [u8],
        y: &mut [u8],
        done: &Completion,
    ) -> (result: Result<(), Error>)
        ensures
            result == (if !(old(k)@.len() == curve.spec_bytes() && old(x)@.len()
                == curve.spec_bytes() && old(y)@.len() == curve.spec_bytes()) {
                Err::<(), Error>(Error::SizeMismatchCurve)
            } else if !done.verification_result {
                Err::<(), Error>(Error::PointNotOnSelectedCurve)
            } else {
                Ok::<(), Error>(())
            }),
            result == Err::<(), Error>(Error::SizeMismatchCurve) ==> final(self)@ == old(self)@,
            result != Err::<(), Error>(Error::SizeMismatchCurve) ==> final(self)@ == old(
                self,
            ).verified(WorkMode::PointVerifJacobianMulti, curve, *done),
            result is Err ==> final(k)@ == old(k)@ && final(x)@ == old(x)@ && final(y)@ == old(
                y,
            )@,
            result is Ok ==> {
                &&& final(x)@ == reversed_into(done.mem.px@, old(x)@)
                &&& final(y)@ == reversed_into(done.mem.py@, old(y)@)
                &&& final(k)@ == reversed_into(done.mem.k@, old(k)@)
            },
    {
        let lens = [k.len(), x.len(), y.len()];
        curve.size_check(lens.as_slice())?;

        write_mem_reversed(&mut self.ecc.mem.k, k);
        write_mem_reversed(&mut self.ecc.mem.px, x);
        write_mem_reversed(&mut self.ecc.mem.py, y);

        self.start_operation(WorkMode::PointVerifJacobianMulti, curve);
        self.complete(done);
        self.check_point_verification_result()?;

        read_mem_reversed(&self.ecc.mem.px, x);
        read_mem_reversed(&self.ecc.mem.py, y);
        read_mem_reversed(&self.ecc.mem.k, k);

        Ok(())
    }

    /// # Point Addition
    ///
    /// In this working mode, ECC first verifies if Point (Px, Py) is on the
    /// selected elliptic curve or not. If yes, then perform the addition:
    /// (R_x, R_y) = (J_x, J_y, J_z) = (P_x, P_y, 1) + (Q_x, Q_y, Q_z)
    ///
    /// This functions requires data in Little Endian.
    /// The affine point representation output is stored in `px` and `py`.
    /// The Jacobian point representation output is stored in `qx`, `qy`, and
    /// `qz`.
    ///
    /// # Error
    ///
    /// This function will return an error if any bitlength value is different
    /// from the bitlength of the prime fields of the curve.
    pub fn affine_point_addition(
        &mut self,
        curve: EllipticCurve,
        px: &mut [u8],
        py: &mut [u8],
        qx: &mut [u8],
        qy: &mut [u8],
        qz: &mut [u8],
        done: &Completion,
    ) -> (result: Result<(), Error>)
        ensures
            (old(px)@.len() == curve.spec_bytes() && old(py)@.len() == curve.spec_bytes() && old(
                qx,
            )@.len() == curve.spec_bytes() && old(qy)@.len() == curve.spec_bytes() && old(
                qz,
            )@.len() == curve.spec_bytes()) <==> result is Ok,
            result matches Err(e) ==> {
                &&& e == Error::SizeMismatchCurve
                &&& final(self)@ == old(self)@
                &&& final(px)@ == old(px)@
                &&& final(py)@ == old(py)@
                &&& final(qx)@ == old(qx)@
                &&& final(qy)@ == old(qy)@
                &&& final(qz)@ == old(qz)@
            },
            result is Ok ==> {
                &&& final(self)@ == old(self).finished(WorkMode::PointAdd, curve, *done)
                &&& final(px)@ == block_read(done.mem.px@, old(px)@)
                &&& final(py)@ == block_read(done.mem.py@, old(py)@)
                &&& final(qx)@ == block_read(done.mem.qx@, old(qx)@)
                &&& final(qy)@ == block_read(done.mem.qy@, old(qy)@)
                &&& final(qz)@ == block_read(done.mem.qz@, old(qz)@)
            },
    {
        let lens = [px.len(), py.len(), qx.len(), qy.len(), qz.len()];
        curve.size_check(lens.as_slice())?;

        write_mem(&mut self.ecc.mem.px, px);
        write_mem(&mut self.ecc.mem.py, py);
        write_mem(&mut self.ecc.mem.qx, qx);
        write_mem(&mut self.ecc.mem.qy, qy);
        write_mem(&mut self.ecc.mem.qz, qz);

        self.start_operation(WorkMode::PointAdd, curve);
        self.complete(done);

        read_mem(&self.ecc.mem.px, px);
        read_mem(&self.ecc.mem.py, py);
        read_mem(&self.ecc.mem.qx, qx);
        read_mem(&self.ecc.mem.qy, qy);
        read_mem(&self.ecc.mem.qz, qz);

        Ok(())
    }

    /// # Mod Operations (+-*/)
    ///
    /// Performs the single mod operation that `work_mode` names, which is
    /// one of the four modular modes: R = A (+-*/) B mod N
    ///
    /// This functions requires data in Little Endian.
    /// Output is stored in `a` (+-) and in `b` (*/), as `done` holds it.
    ///
    /// # Error
    ///
    /// This function will return an error if any bitlength value is different
    /// from the bitlength of the prime fields of the curve.
    pub fn mod_operations(
        &mut self,
        curve: EllipticCurve,
        a: &mut [u8],
        b: &mut [u8],
        work_mode: WorkMode,
        done: &Completion,
    ) -> (result: Result<(), Error>)
        requires
            work_mode.is_modular(),
        ensures
            (old(a)@.len() == curve.spec_bytes() && old(b)@.len() == curve.spec_bytes())
                <==> result is Ok,
            result matches Err(e) ==> {
                &&& e == Error::SizeMismatchCurve
                &&& final(self)@ == old(self)@
                &&& final(a)@ == old(a)@
                &&& final(b)@ == old(b)@
            },
            result is Ok ==> {
                &&& final(self)@ == old(self).finished(work_mode, curve, *done)
                &&& final(a)@ == (if work_mode == WorkMode::ModAdd || work_mode
                    == WorkMode::ModSub {
                    block_read(done.mem.px@, old(a)@)
                } else {
                    old(a)@
                })
                &&& final(b)@ == (if work_mode == WorkMode::ModMulti || work_mode
                    == WorkMode::ModDiv {
                    block_read(done.mem.py@, old(b)@)
                } else {
                    old(b)@
                })
            },
    {
        let lens = [a.len(), b.len()];
        curve.size_check(lens.as_slice())?;

        write_mem(&mut self.ecc.mem.px, a);
        write_mem(&mut self.ecc.mem.py, b);

        self.start_operation(work_mode, curve);
        self.complete(done);

        match work_mode {
            WorkMode::ModAdd | WorkMode::ModSub => read_mem(&self.ecc.mem.px, a),
            _ => read_mem(&self.ecc.mem.py, b),
        }

        Ok(())
    }
}

} // verus!
