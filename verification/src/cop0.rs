//! System coprocessor: the Status and Cause registers, their exact bit
//! layouts, and the load/store-by-register-number interface the pipeline
//! uses.
//!
//! Both registers are held as plain 32-bit words with one shift/mask
//! accessor pair per architectural field, so the field placement is explicit
//! and portable. Undefined bits read back whatever was last written.

use vstd::prelude::*;

verus! {

/// Privilege mode as encoded in a one-bit Status field.
#[derive(Clone, Copy, Debug, PartialEq, Eq, Structural)]
pub enum Mode {
    Kernel,
    User,
}

/// Which base the exception vectors use, as encoded in the Status
/// boot-exception-vectors bit.
#[derive(Clone, Copy, Debug, PartialEq, Eq, Structural)]
pub enum BootExceptionVectors {
    KSEG0,
    KSEG1,
}

/// The exception kinds the architecture can report in Cause's 5-bit
/// exception-code field.
#[derive(Clone, Copy, Debug, PartialEq, Eq, Structural)]
pub enum Exception {
    Interrupt,
    TlbModification,
    TlbLoad,
    TlbStore,
    AddressLoadError,
    AddressStoreError,
    BusInstructionError,
    BusDataLoadStoreError,
    SystemCall,
    Breakpoint,
    ReservedInstruction,
    CoprocessorUnusable,
    ArithmeticOverflow,
}

/// The 5-bit encoding of an exception kind.
pub open spec fn spec_exception_code(e: Exception) -> u32 {
    match e {
        Exception::Interrupt => 0x00,
        Exception::TlbModification => 0x01,
        Exception::TlbLoad => 0x02,
        Exception::TlbStore => 0x03,
        Exception::AddressLoadError => 0x04,
        Exception::AddressStoreError => 0x05,
        Exception::BusInstructionError => 0x06,
        Exception::BusDataLoadStoreError => 0x07,
        Exception::SystemCall => 0x08,
        Exception::Breakpoint => 0x09,
        Exception::ReservedInstruction => 0x0A,
        Exception::CoprocessorUnusable => 0x0B,
        Exception::ArithmeticOverflow => 0x0C,
    }
}

impl Exception {
    /// The 5-bit code this kind is reported as.
    pub fn code(&self) -> (r: u32)
        ensures
            r == spec_exception_code(*self),
            r < 32,
    {
        match self {
            Exception::Interrupt => 0x00,
            Exception::TlbModification => 0x01,
            Exception::TlbLoad => 0x02,
            Exception::TlbStore => 0x03,
            Exception::AddressLoadError => 0x04,
            Exception::AddressStoreError => 0x05,
            Exception::BusInstructionError => 0x06,
            Exception::BusDataLoadStoreError => 0x07,
            Exception::SystemCall => 0x08,
            Exception::Breakpoint => 0x09,
            Exception::ReservedInstruction => 0x0A,
            Exception::CoprocessorUnusable => 0x0B,
            Exception::ArithmeticOverflow => 0x0C,
        }
    }
}

/// Whether bit `bit` of `w` is set.
pub open spec fn spec_bit(w: u32, bit: u32) -> bool
    recommends
        bit < 32,
{
    (w >> bit) & 1 == 1
}

/// The Status register: interrupt-enable and privilege-mode fields stacked
/// three deep, the interrupt mask, cache flags, the boot-exception-vector
/// selector, and the per-coprocessor enable bits.
#[derive(Clone, Copy, Debug, PartialEq, Eq, Structural)]
pub struct Status(pub u32);

/// Pushing the mode/interrupt-enable stack on exception entry: the old pair
/// receives the previous pair, the previous pair receives the current pair,
/// and the current pair becomes kernel mode with interrupts disabled.
pub open spec fn spec_status_push(st: u32) -> u32 {
    (st & 0xFFFFFFC0) | ((st << 2) & 0x3F)
}

/// Popping the mode/interrupt-enable stack on return from exception: the
/// current pair receives the previous pair, the previous pair receives the
/// old pair, and the old pair is left in place.
pub open spec fn spec_status_pop(st: u32) -> u32 {
    (st & 0xFFFFFFF0) | ((st >> 2) & 0x0F)
}

impl Status {
    /// The reset value: every field zero.
    pub fn new() -> (r: Status)
        ensures
            r.0 == 0,
    {
        Status(0)
    }

    /// Bit 0: current interrupt enable.
    pub fn interrupt_enable(&self) -> (r: bool)
        ensures
            r == spec_bit(self.0, 0),
    {
        self.bit(0)
    }

    /// Bit 1: current privilege mode.
    pub fn mode(&self) -> (r: Mode)
        ensures
            r == (if spec_bit(self.0, 1) {
                Mode::User
            } else {
                Mode::Kernel
            }),
    {
        if self.bit(1) {
            Mode::User
        } else {
            Mode::Kernel
        }
    }

    /// Bit 2: previous interrupt enable, pushed on exception entry.
    pub fn prev_interrupt_enable(&self) -> (r: bool)
        ensures
            r == spec_bit(self.0, 2),
    {
        self.bit(2)
    }

    /// Bit 3: previous privilege mode, pushed on exception entry.
    pub fn prev_mode(&self) -> (r: Mode)
        ensures
            r == (if spec_bit(self.0, 3) {
                Mode::User
            } else {
                Mode::Kernel
            }),
    {
        if self.bit(3) {
            Mode::User
        } else {
            Mode::Kernel
        }
    }

    /// Bit 4: old interrupt enable, the second level of nesting.
    pub fn old_interrupt_enable(&self) -> (r: bool)
        ensures
            r == spec_bit(self.0, 4),
    {
        self.bit(4)
    }

    /// Bit 5: old privilege mode, the second level of nesting.
    pub fn old_mode(&self) -> (r: Mode)
        ensures
            r == (if spec_bit(self.0, 5) {
                Mode::User
            } else {
                Mode::Kernel
            }),
    {
        if self.bit(5) {
            Mode::User
        } else {
            Mode::Kernel
        }
    }

    /// Bits 8-15: the per-IRQ-line interrupt mask.
    pub fn interrupt_mask(&self) -> (r: u32)
        ensures
            r == (self.0 >> 8) & 0xFF,
    {
        (self.0 >> 8) & 0xFF
    }

    /// Bit 16: whether CPU stores are redirected away from the bus into the
    /// isolated cache.
    pub fn isolate_cache(&self) -> (r: bool)
        ensures
            r == spec_bit(self.0, 16),
    {
        self.bit(16)
    }

    /// Bit 17: swapped-cache flag.
    pub fn swapped_cache(&self) -> (r: bool)
        ensures
            r == spec_bit(self.0, 17),
    {
        self.bit(17)
    }

    /// Bit 18: write-zero-as-parity flag.
    pub fn write_zero_as_parity_bits(&self) -> (r: bool)
        ensures
            r == spec_bit(self.0, 18),
    {
        self.bit(18)
    }

    /// Bit 20: cache parity error flag.
    pub fn cache_parity_error(&self) -> (r: bool)
        ensures
            r == spec_bit(self.0, 20),
    {
        self.bit(20)
    }

    /// Bit 21: TLB-shutdown flag.
    pub fn tlb_shutdown(&self) -> (r: bool)
        ensures
            r == spec_bit(self.0, 21),
    {
        self.bit(21)
    }

    /// Bit 22: which base the exception vectors use.
    pub fn boot_exception_vectors(&self) -> (r: BootExceptionVectors)
        ensures
            r == (if spec_bit(self.0, 22) {
                BootExceptionVectors::KSEG1
            } else {
                BootExceptionVectors::KSEG0
            }),
    {
        if self.bit(22) {
            BootExceptionVectors::KSEG1
        } else {
            BootExceptionVectors::KSEG0
        }
    }

    /// Bit 25: reverse-endianness flag.
    pub fn reverse_endianness(&self) -> (r: bool)
        ensures
            r == spec_bit(self.0, 25),
    {
        self.bit(25)
    }

    /// Bits 28-31: whether coprocessor `n` is enabled. Coprocessor 0 is
    /// always usable by this core (it runs in kernel mode), so this reports
    /// the raw enable bit only.
    pub fn cop_enable(&self, n: u32) -> (r: bool)
        requires
            n < 4,
        ensures
            r == spec_bit(self.0, (28 + n) as u32),
    {
        self.bit(28 + n)
    }

    /// Bit `bit` of the raw word.
    pub fn bit(&self, bit: u32) -> (r: bool)
        requires
            bit < 32,
        ensures
            r == spec_bit(self.0, bit),
    {
        let w = self.0;
        (w >> bit) & 1 == 1
    }
}

/// The Cause register: the exception code, the interrupt-pending bitmap, the
/// coprocessor number of the most recent unusable-coprocessor fault, and the
/// branch flags captured from the pipeline.
#[derive(Clone, Copy, Debug, PartialEq, Eq, Structural)]
pub struct Cause(pub u32);

/// Bits 2-6 of Cause: the 5-bit exception code.
pub open spec fn spec_cause_exception_code(c: u32) -> u32 {
    (c >> 2) & 0x1F
}

/// Bits 8-15 of Cause: the interrupt-pending bitmap.
pub open spec fn spec_cause_interrupt_pending(c: u32) -> u32 {
    (c >> 8) & 0xFF
}

/// Cause with its exception code replaced.
pub open spec fn spec_cause_with_exception_code(c: u32, code: u32) -> u32
    recommends
        code < 32,
{
    (c & 0xFFFFFF83) | ((code & 0x1F) << 2)
}

/// Cause with its interrupt-pending bitmap replaced.
pub open spec fn spec_cause_with_interrupt_pending(c: u32, ip: u32) -> u32
    recommends
        ip < 256,
{
    (c & 0xFFFF00FF) | ((ip & 0xFF) << 8)
}

/// Cause with its coprocessor-number field (bits 28-29) replaced.
pub open spec fn spec_cause_with_coprocessor_number(c: u32, n: u32) -> u32
    recommends
        n < 4,
{
    (c & 0xCFFFFFFF) | ((n & 0x3) << 28)
}

/// Cause with its branch-taken (bit 30) and branch-delay (bit 31) flags
/// replaced.
pub open spec fn spec_cause_with_branch_flags(c: u32, taken: bool, delay: bool) -> u32 {
    (c & 0x3FFFFFFF) | (if taken {
        0x40000000u32
    } else {
        0u32
    }) | (if delay {
        0x80000000u32
    } else {
        0u32
    })
}

/// The store path of Cause register writes: only the two software-
/// controllable low bits of the interrupt-pending bitmap are taken from the
/// stored value; the hardware-driven bits 2-7 of the bitmap are preserved.
pub open spec fn spec_cause_store(c: u32, value: u32) -> u32 {
    spec_cause_with_interrupt_pending(
        c,
        (spec_cause_interrupt_pending(c) & 0xFC) | ((value >> 8) & 0x3),
    )
}

impl Cause {
    /// The reset value: every field zero.
    pub fn new() -> (r: Cause)
        ensures
            r.0 == 0,
    {
        Cause(0)
    }

    /// Bits 2-6: the exception code.
    pub fn exception_code(&self) -> (r: u32)
        ensures
            r == spec_cause_exception_code(self.0),
            r < 32,
    {
        let c = self.0;
        proof {
            assert((c >> 2) & 0x1F < 32) by (bit_vector);
        }
        (c >> 2) & 0x1F
    }

    /// Bits 8-15: the interrupt-pending bitmap.
    pub fn interrupt_pending(&self) -> (r: u32)
        ensures
            r == spec_cause_interrupt_pending(self.0),
            r < 256,
    {
        let c = self.0;
        proof {
            assert((c >> 8) & 0xFF < 256) by (bit_vector);
        }
        (c >> 8) & 0xFF
    }

    /// Bits 28-29: the coprocessor number of the most recent
    /// unusable-coprocessor fault.
    pub fn coprocessor_number(&self) -> (r: u32)
        ensures
            r == (self.0 >> 28) & 0x3,
            r < 4,
    {
        let c = self.0;
        proof {
            assert((c >> 28) & 0x3 < 4) by (bit_vector);
        }
        (c >> 28) & 0x3
    }

    /// Bit 30: whether the most recent step took its branch.
    pub fn branch_taken(&self) -> (r: bool)
        ensures
            r == spec_bit(self.0, 30),
    {
        let c = self.0;
        (c >> 30) & 1 == 1
    }

    /// Bit 31: whether the most recent step sat in a branch-delay slot.
    pub fn branch_delay(&self) -> (r: bool)
        ensures
            r == spec_bit(self.0, 31),
    {
        let c = self.0;
        (c >> 31) & 1 == 1
    }

    /// Replaces the exception code.
    pub fn set_exception_code(&mut self, code: u32)
        ensures
            final(self).0 == spec_cause_with_exception_code(old(self).0, code),
    {
        self.0 = (self.0 & 0xFFFFFF83) | ((code & 0x1F) << 2);
    }

    /// Replaces the interrupt-pending bitmap.
    pub fn set_interrupt_pending(&mut self, ip: u32)
        ensures
            final(self).0 == spec_cause_with_interrupt_pending(old(self).0, ip),
    {
        self.0 = (self.0 & 0xFFFF00FF) | ((ip & 0xFF) << 8);
    }

    /// Replaces the coprocessor-number field.
    pub fn set_coprocessor_number(&mut self, n: u32)
        ensures
            final(self).0 == spec_cause_with_coprocessor_number(old(self).0, n),
    {
        self.0 = (self.0 & 0xCFFFFFFF) | ((n & 0x3) << 28);
    }

    /// Replaces the branch-taken and branch-delay flags.
    pub fn set_branch_flags(&mut self, taken: bool, delay: bool)
        ensures
            final(self).0 == spec_cause_with_branch_flags(old(self).0, taken, delay),
    {
        let t: u32 = if taken {
            0x40000000
        } else {
            0
        };
        let d: u32 = if delay {
            0x80000000
        } else {
            0
        };
        self.0 = (self.0 & 0x3FFFFFFF) | t | d;
    }
}

/// The ghost image of the coprocessor: the raw words of its two modeled
/// registers.
#[verifier::ext_equal]
pub ghost struct Cop0View {
    pub status: u32,
    pub cause: u32,
}

/// The system coprocessor. Only registers 12 (Status) and 13 (Cause) are
/// semantically modeled; loads of any other register yield no value and the
/// caller must treat that as a fault, while stores to unmodeled registers
/// are accepted and ignored as an explicit placeholder policy.
pub struct Cop0 {
    status: Status,
    cause: Cause,
}

/// What a coprocessor register load yields: the Status word for register 12,
/// the Cause word for register 13, nothing otherwise.
pub open spec fn spec_cop0_load(v: Cop0View, register: usize) -> Option<u32> {
    if register == 12 {
        Some(v.status)
    } else if register == 13 {
        Some(v.cause)
    } else {
        None
    }
}

/// What a coprocessor register store leaves behind: register 12 is replaced
/// whole, register 13 goes through the masked Cause store path, and every
/// other register number leaves the state unchanged.
pub open spec fn spec_cop0_store(v: Cop0View, register: usize, value: u32) -> Cop0View {
    if register == 12 {
        Cop0View { status: value, ..v }
    } else if register == 13 {
        Cop0View { cause: spec_cause_store(v.cause, value), ..v }
    } else {
        v
    }
}

impl View for Cop0 {
    type V = Cop0View;

    closed spec fn view(&self) -> Cop0View {
        Cop0View { status: self.status.0, cause: self.cause.0 }
    }
}

impl Cop0 {
    /// Both registers start at their reset value, zero.
    pub fn new() -> (r: Cop0)
        ensures
            r@.status == 0,
            r@.cause == 0,
    {
        Cop0 { status: Status::new(), cause: Cause::new() }
    }

    /// Whether the Status isolate-cache bit gates CPU stores away from the
    /// bus.
    pub fn is_cache_isolated(&self) -> (r: bool)
        ensures
            r == spec_bit(self@.status, 16),
    {
        self.status.isolate_cache()
    }

    /// Reads a coprocessor register by number; yields nothing for registers
    /// outside the modeled set.
    pub fn load(&self, register: usize) -> (r: Option<u32>)
        ensures
            r == spec_cop0_load(self@, register),
    {
        if register == 12 {
            Some(self.status.0)
        } else if register == 13 {
            Some(self.cause.0)
        } else {
            None
        }
    }

    /// Writes a coprocessor register by number; stores to registers outside
    /// the modeled set are accepted and ignored.
    pub fn store(&mut self, register: usize, value: u32)
        ensures
            final(self)@ == spec_cop0_store(old(self)@, register, value),
    {
        if register == 12 {
            self.status.0 = value;
        } else if register == 13 {
            let ip = self.cause.interrupt_pending();
            self.cause.set_interrupt_pending((ip & 0xFC) | ((value >> 8) & 0x3));
        }
    }

    /// The raw Status word.
    pub fn status(&self) -> (r: Status)
        ensures
            r.0 == self@.status,
    {
        self.status
    }

    /// The raw Cause word.
    pub fn cause(&self) -> (r: Cause)
        ensures
            r.0 == self@.cause,
    {
        self.cause
    }

    /// Replaces the Status word.
    pub fn set_status(&mut self, st: u32)
        ensures
            final(self)@ == (Cop0View { status: st, ..old(self)@ }),
    {
        self.status.0 = st;
    }

    /// Replaces the Cause word.
    pub fn set_cause(&mut self, c: u32)
        ensures
            final(self)@ == (Cop0View { cause: c, ..old(self)@ }),
    {
        self.cause.0 = c;
    }
}

} // verus!
