//! Execution pipeline: the register file, the program-counter pair, the
//! two-slot load-delay queue, the system coprocessor and the bus, driven one
//! clock step at a time.
//!
//! One step fetches the instruction at the current program counter, advances
//! the counter pair (so that any redirect the instruction computes lands in
//! predicted-next and takes effect only after the delay slot), executes the
//! instruction, and then ages the load-delay queue. The whole step is
//! specified by [`spec_step`], and [`Cpu::clock`] is proved to implement it
//! exactly.
//!
//! Every fault raised during a step goes through one exception path,
//! [`spec_raise`]: it captures the faulting program counter and the
//! branch-delay context of the most recent step (held in the `ex_`-prefixed
//! state), sets the Cause register's exception code and coprocessor number,
//! pushes the Status mode/interrupt-enable stack, and redirects execution to
//! the exception vector selected by the Status boot-vector bit. The captured
//! flags live for exactly one step: they are overwritten when the next step
//! begins, which is long enough for the exception path of that step to
//! report them.

use vstd::prelude::*;
use crate::bus::{
    Bus,
    BusView,
    spec_bus_load16,
    spec_bus_load32,
    spec_bus_load8,
    spec_bus_store16,
    spec_bus_store32,
    spec_bus_store8,
};
use crate::cop0::{
    BootExceptionVectors,
    Cop0,
    Cop0View,
    Exception,
    spec_bit,
    spec_cop0_load,
    spec_cop0_store,
    spec_status_pop,
    spec_status_push,
    spec_cause_with_branch_flags,
    spec_cause_with_coprocessor_number,
    spec_cause_with_exception_code,
    spec_exception_code,
};
use crate::instr::{
    Instruction,
    Op,
    spec_decode,
    spec_imm_signed,
    spec_imm_zero,
    spec_opcode,
    spec_rd,
    spec_rs,
    spec_rt,
    spec_shift,
    spec_sign_extend16,
    spec_sign_extend8,
    spec_target,
};

verus! {

/// Address of the first instruction fetched after construction.
pub const RESET_VECTOR: u32 = 0xBFC00000;

/// One pending delayed register write: the target register and the value
/// that becomes visible once the entry is due and committed.
#[derive(Clone, Copy, Debug, PartialEq, Eq, Structural)]
pub struct DelaySlot {
    pub register: usize,
    pub value: u32,
}

/// The ghost image of the whole pipeline: register file, counter pair,
/// delay queue, bookkeeping flags, the `ex_` context captured from the most
/// recent step, coprocessor and bus.
#[verifier::ext_equal]
pub ghost struct CpuView {
    pub regs: Seq<u32>,
    pub pc: u32,
    pub pc_pred: u32,
    pub delay_due: Option<DelaySlot>,
    pub delay_pending: Option<DelaySlot>,
    pub branch_delay: bool,
    pub branch_taken: bool,
    pub ex_pc: u32,
    pub ex_branch_delay: bool,
    pub ex_branch_taken: bool,
    pub cop0: Cop0View,
    pub bus: BusView,
}

impl CpuView {
    /// The pipeline's structural invariant: 32 registers, register 0 fixed
    /// at zero, delay-queue entries aimed at real writable registers, and
    /// well-formed devices.
    pub open spec fn wf(self) -> bool {
        &&& self.regs.len() == 32
        &&& self.regs[0] == 0
        &&& (self.delay_due matches Some(d) ==> 1 <= d.register < 32)
        &&& (self.delay_pending matches Some(d) ==> 1 <= d.register < 32)
        &&& self.bus.wf()
    }
}

/// A synchronous register write: index 0 is a no-op, and a write cancels a
/// due delayed write aimed at the same register, so the most recent write
/// wins.
pub open spec fn spec_set_reg(s: CpuView, register: usize, value: u32) -> CpuView {
    if register == 0 {
        s
    } else {
        let cancel = match s.delay_due {
            Some(d) => d.register == register,
            None => false,
        };
        CpuView {
            regs: s.regs.update(register as int, value),
            delay_due: if cancel {
                None
            } else {
                s.delay_due
            },
            ..s
        }
    }
}

/// Enqueueing a delayed register write: index 0 is a no-op; a due entry for
/// the same register is cancelled (the newer load wins); the new entry
/// enters the not-yet-due slot.
pub open spec fn spec_load_delay(s: CpuView, register: usize, value: u32) -> CpuView {
    if register == 0 {
        s
    } else {
        let cancel = match s.delay_due {
            Some(d) => d.register == register,
            None => false,
        };
        CpuView {
            delay_due: if cancel {
                None
            } else {
                s.delay_due
            },
            delay_pending: Some(DelaySlot { register, value }),
            ..s
        }
    }
}

/// Delay-queue aging at the end of a step: the due entry, if any, commits
/// into the register file; the not-yet-due entry shifts into the due slot;
/// the not-yet-due slot clears. A single shift, never a search.
pub open spec fn spec_age_delay(s: CpuView) -> CpuView {
    let regs = match s.delay_due {
        Some(d) => s.regs.update(d.register as int, d.value),
        None => s.regs,
    };
    CpuView { regs, delay_due: s.delay_pending, delay_pending: None, ..s }
}

/// A taken redirect: both bookkeeping flags rise and predicted-next is
/// replaced, so the redirect takes effect after the delay slot.
pub open spec fn spec_jump(s: CpuView, target: u32) -> CpuView {
    CpuView { branch_delay: true, branch_taken: true, pc_pred: target, ..s }
}

/// The jump target: the top 4 bits of the current program counter
/// concatenated with the 26-bit target field shifted left 2.
pub open spec fn spec_jump_target(pc: u32, field: u32) -> u32 {
    (pc & 0xF0000000) | (field << 2)
}

/// The branch target: the address of the branch instruction plus the
/// sign-extended immediate shifted left 2.
pub open spec fn spec_branch_target(s: CpuView, w: u32) -> u32 {
    s.ex_pc.wrapping_add(spec_imm_signed(w) << 2)
}

/// Arithmetic shift right: the sign bit fills the vacated positions.
pub open spec fn spec_sra(x: u32, amount: u32) -> u32 {
    if x & 0x80000000 != 0 {
        (x >> amount) | !(0xFFFFFFFFu32 >> amount)
    } else {
        x >> amount
    }
}

/// Whether the signed addition of the two words overflows 32 bits.
pub open spec fn spec_add_overflows(a: u32, b: u32) -> bool {
    ((a ^ b) & 0x80000000) == 0 && ((a ^ a.wrapping_add(b)) & 0x80000000) != 0
}

/// Whether the signed subtraction of the two words overflows 32 bits.
pub open spec fn spec_sub_overflows(a: u32, b: u32) -> bool {
    ((a ^ b) & 0x80000000) != 0 && ((a ^ a.wrapping_sub(b)) & 0x80000000) != 0
}

/// Signed comparison of two words held as unsigned bit patterns: flipping
/// the sign bits makes unsigned order agree with signed order.
pub open spec fn spec_signed_lt(a: u32, b: u32) -> bool {
    (a ^ 0x80000000) < (b ^ 0x80000000)
}

/// A decoded `CopOther` always carries a coprocessor number below 4.
pub proof fn lemma_cop_other_bounded(w: u32)
    ensures
        spec_decode(w) matches Op::CopOther(n) ==> n < 4,
{
    let op = spec_opcode(w);
    assert(op & 0x3 < 4) by (bit_vector);
}

/// Whether the operation is one of the conditional branches.
pub open spec fn spec_is_branch(op: Op) -> bool {
    match op {
        Op::Beq | Op::Bne | Op::Blez | Op::Bgtz | Op::Bltz | Op::Bgez | Op::Bltzal
            | Op::Bgezal => true,
        _ => false,
    }
}

/// Whether the branch the word encodes is taken in state `s`: equality for
/// the equal/not-equal pair, the sign bit and the zero test for the
/// sign-based family.
pub open spec fn spec_branch_cond(s: CpuView, w: u32) -> bool {
    let rs_v = s.regs[spec_rs(w) as int];
    let rt_v = s.regs[spec_rt(w) as int];
    match spec_decode(w) {
        Op::Beq => rs_v == rt_v,
        Op::Bne => rs_v != rt_v,
        Op::Blez => rs_v == 0 || rs_v & 0x80000000 != 0,
        Op::Bgtz => rs_v != 0 && rs_v & 0x80000000 == 0,
        Op::Bltz | Op::Bltzal => rs_v & 0x80000000 != 0,
        Op::Bgez | Op::Bgezal => rs_v & 0x80000000 == 0,
        _ => false,
    }
}

/// The semantics shared by every conditional branch: the branch-delay flag
/// rises whether or not the branch is taken, the linking variants store the
/// address after the delay slot into register 31 unconditionally, and only
/// a taken branch raises branch-taken and redirects predicted-next.
pub open spec fn spec_execute_branch(s: CpuView, w: u32) -> CpuView {
    let op = spec_decode(w);
    let s1 = CpuView { branch_delay: true, ..s };
    let s2 = if op == Op::Bltzal || op == Op::Bgezal {
        spec_set_reg(s1, 31, s1.pc_pred)
    } else {
        s1
    };
    if spec_branch_cond(s, w) {
        CpuView { branch_taken: true, pc_pred: spec_branch_target(s, w), ..s2 }
    } else {
        s2
    }
}

/// The unified exception path. The faulting program counter is already
/// captured in `ex_pc` (the address of the instruction whose step this is);
/// Cause receives the exception code, the coprocessor number and the
/// branch context of the step; Status pushes its mode/interrupt-enable
/// stack; execution redirects to the vector selected by the boot-vector
/// bit, with no delay slot.
pub open spec fn spec_raise(s: CpuView, e: Exception, cop: u32) -> CpuView {
    let cause = spec_cause_with_branch_flags(
        spec_cause_with_coprocessor_number(
            spec_cause_with_exception_code(s.cop0.cause, spec_exception_code(e)),
            cop,
        ),
        s.ex_branch_taken,
        s.ex_branch_delay,
    );
    let vector: u32 = if spec_bit(s.cop0.status, 22) {
        0xBFC00180
    } else {
        0x80000080
    };
    CpuView {
        pc: vector,
        pc_pred: vector.wrapping_add(4),
        cop0: Cop0View { status: spec_status_push(s.cop0.status), cause },
        ..s
    }
}

/// What executing the instruction word `w` does to the advanced state `s`:
/// the dispatch table as one function.
pub open spec fn spec_execute(s: CpuView, w: u32) -> CpuView {
    let op = spec_decode(w);
    let rs_v = s.regs[spec_rs(w) as int];
    let rt_v = s.regs[spec_rt(w) as int];
    let rd = spec_rd(w) as usize;
    let rt = spec_rt(w) as usize;
    let sh = spec_shift(w);
    let imm_s = spec_imm_signed(w);
    let imm_z = spec_imm_zero(w);
    match op {
        Op::Sll => spec_set_reg(s, rd, rt_v << sh),
        Op::Srl => spec_set_reg(s, rd, rt_v >> sh),
        Op::Sra => spec_set_reg(s, rd, spec_sra(rt_v, sh)),
        Op::Sllv => spec_set_reg(s, rd, rt_v << (rs_v & 0x1F)),
        Op::Srlv => spec_set_reg(s, rd, rt_v >> (rs_v & 0x1F)),
        Op::Srav => spec_set_reg(s, rd, spec_sra(rt_v, rs_v & 0x1F)),
        Op::Jr => spec_jump(s, rs_v),
        Op::Jalr => spec_jump(spec_set_reg(s, rd, s.pc_pred), rs_v),
        Op::Syscall => spec_raise(s, Exception::SystemCall, 0),
        Op::Break => spec_raise(s, Exception::Breakpoint, 0),
        Op::Add => if spec_add_overflows(rs_v, rt_v) {
            spec_raise(s, Exception::ArithmeticOverflow, 0)
        } else {
            spec_set_reg(s, rd, rs_v.wrapping_add(rt_v))
        },
        Op::Addu => spec_set_reg(s, rd, rs_v.wrapping_add(rt_v)),
        Op::Sub => if spec_sub_overflows(rs_v, rt_v) {
            spec_raise(s, Exception::ArithmeticOverflow, 0)
        } else {
            spec_set_reg(s, rd, rs_v.wrapping_sub(rt_v))
        },
        Op::Subu => spec_set_reg(s, rd, rs_v.wrapping_sub(rt_v)),
        Op::And => spec_set_reg(s, rd, rs_v & rt_v),
        Op::Or => spec_set_reg(s, rd, rs_v | rt_v),
        Op::Xor => spec_set_reg(s, rd, rs_v ^ rt_v),
        Op::Nor => spec_set_reg(s, rd, !(rs_v | rt_v)),
        Op::Slt => spec_set_reg(
            s,
            rd,
            if spec_signed_lt(rs_v, rt_v) {
                1u32
            } else {
                0u32
            },
        ),
        Op::Sltu => spec_set_reg(
            s,
            rd,
            if rs_v < rt_v {
                1u32
            } else {
                0u32
            },
        ),
        Op::Beq | Op::Bne | Op::Blez | Op::Bgtz | Op::Bltz | Op::Bgez | Op::Bltzal
            | Op::Bgezal => spec_execute_branch(s, w),
        Op::J => spec_jump(s, spec_jump_target(s.pc, spec_target(w))),
        Op::Jal => spec_jump(
            spec_set_reg(s, 31, s.pc_pred),
            spec_jump_target(s.pc, spec_target(w)),
        ),
        Op::Addi => if spec_add_overflows(rs_v, imm_s) {
            spec_raise(s, Exception::ArithmeticOverflow, 0)
        } else {
            spec_set_reg(s, rt, rs_v.wrapping_add(imm_s))
        },
        Op::Addiu => spec_set_reg(s, rt, rs_v.wrapping_add(imm_s)),
        Op::Slti => spec_set_reg(
            s,
            rt,
            if spec_signed_lt(rs_v, imm_s) {
                1u32
            } else {
                0u32
            },
        ),
        Op::Sltiu => spec_set_reg(
            s,
            rt,
            if rs_v < imm_s {
                1u32
            } else {
                0u32
            },
        ),
        Op::Andi => spec_set_reg(s, rt, rs_v & imm_z),
        Op::Ori => spec_set_reg(s, rt, rs_v | imm_z),
        Op::Xori => spec_set_reg(s, rt, rs_v ^ imm_z),
        Op::Lui => spec_set_reg(s, rt, imm_z << 16),
        Op::Mfc0 => match spec_cop0_load(s.cop0, rd) {
            Some(v) => spec_load_delay(s, rt, v),
            None => spec_raise(s, Exception::ReservedInstruction, 0),
        },
        Op::Mtc0 => CpuView { cop0: spec_cop0_store(s.cop0, rd, rt_v), ..s },
        Op::Rfe => CpuView {
            cop0: Cop0View { status: spec_status_pop(s.cop0.status), ..s.cop0 },
            ..s
        },
        Op::CopOther(n) => if n == 0 || spec_bit(s.cop0.status, (28 + n) as u32) {
            spec_raise(s, Exception::ReservedInstruction, 0)
        } else {
            spec_raise(s, Exception::CoprocessorUnusable, n)
        },
        Op::Lb => {
            let address = rs_v.wrapping_add(imm_s);
            match spec_bus_load8(s.bus, address) {
                Ok(v) => spec_load_delay(s, rt, spec_sign_extend8(v as u32)),
                Err(_) => spec_raise(s, Exception::AddressLoadError, 0),
            }
        },
        Op::Lbu => {
            let address = rs_v.wrapping_add(imm_s);
            match spec_bus_load8(s.bus, address) {
                Ok(v) => spec_load_delay(s, rt, v as u32),
                Err(_) => spec_raise(s, Exception::AddressLoadError, 0),
            }
        },
        Op::Lh => {
            let address = rs_v.wrapping_add(imm_s);
            if address % 2 != 0 {
                spec_raise(s, Exception::AddressLoadError, 0)
            } else {
                match spec_bus_load16(s.bus, address) {
                    Ok(v) => spec_load_delay(s, rt, spec_sign_extend16(v as u32)),
                    Err(_) => spec_raise(s, Exception::AddressLoadError, 0),
                }
            }
        },
        Op::Lhu => {
            let address = rs_v.wrapping_add(imm_s);
            if address % 2 != 0 {
                spec_raise(s, Exception::AddressLoadError, 0)
            } else {
                match spec_bus_load16(s.bus, address) {
                    Ok(v) => spec_load_delay(s, rt, v as u32),
                    Err(_) => spec_raise(s, Exception::AddressLoadError, 0),
                }
            }
        },
        Op::Lw => {
            let address = rs_v.wrapping_add(imm_s);
            if address % 4 != 0 {
                spec_raise(s, Exception::AddressLoadError, 0)
            } else {
                match spec_bus_load32(s.bus, address) {
                    Ok(v) => spec_load_delay(s, rt, v),
                    Err(_) => spec_raise(s, Exception::AddressLoadError, 0),
                }
            }
        },
        Op::Sb => {
            let address = rs_v.wrapping_add(imm_s);
            if spec_bit(s.cop0.status, 16) {
                s
            } else {
                CpuView { bus: spec_bus_store8(s.bus, address, (rt_v & 0xFF) as u8).0, ..s }
            }
        },
        Op::Sh => {
            let address = rs_v.wrapping_add(imm_s);
            if address % 2 != 0 {
                spec_raise(s, Exception::AddressStoreError, 0)
            } else if spec_bit(s.cop0.status, 16) {
                s
            } else {
                CpuView {
                    bus: spec_bus_store16(s.bus, address, (rt_v & 0xFFFF) as u16).0,
                    ..s
                }
            }
        },
        Op::Sw => {
            let address = rs_v.wrapping_add(imm_s);
            if address % 4 != 0 {
                spec_raise(s, Exception::AddressStoreError, 0)
            } else if spec_bit(s.cop0.status, 16) {
                s
            } else {
                CpuView { bus: spec_bus_store32(s.bus, address, rt_v).0, ..s }
            }
        },
        Op::Reserved => spec_raise(s, Exception::ReservedInstruction, 0),
    }
}

/// The advance stage of a step: the current counter receives predicted
/// next, predicted next moves four bytes on, the `ex_` context captures the
/// step's own address and the flags the previous instruction left, and the
/// live flags clear.
pub open spec fn spec_advance(s: CpuView) -> CpuView {
    CpuView {
        pc: s.pc_pred,
        pc_pred: s.pc_pred.wrapping_add(4),
        ex_pc: s.pc,
        ex_branch_delay: s.branch_delay,
        ex_branch_taken: s.branch_taken,
        branch_delay: false,
        branch_taken: false,
        ..s
    }
}

/// One whole clock step. The counter pair advances before the fetched
/// instruction executes, so a redirect computed by the instruction lands in
/// predicted-next and affects the step after next: that ordering is the
/// entire mechanism of the one-instruction branch delay. A fetch from a
/// misaligned or unmapped program counter raises the address-error
/// exception through the same path as every other fault, and the delay
/// queue ages at the end of the step either way.
pub open spec fn spec_step(s: CpuView) -> CpuView {
    let advanced = spec_advance(s);
    let executed = if s.pc % 4 != 0 {
        spec_raise(advanced, Exception::AddressLoadError, 0)
    } else {
        match spec_bus_load32(s.bus, s.pc) {
            Ok(w) => spec_execute(advanced, w),
            Err(_) => spec_raise(advanced, Exception::AddressLoadError, 0),
        }
    };
    spec_age_delay(executed)
}

/// The register file at reset: register 0 at zero, every other register at
/// a deliberately non-zero pattern so use-before-init surfaces.
pub open spec fn spec_reset_regs() -> Seq<u32> {
    Seq::new(
        32,
        |i: int|
            if i == 0 {
                0u32
            } else {
                0xDEADBEEFu32
            },
    )
}

/// The pipeline at reset: both counters aimed at the reset vector, empty
/// delay queue, cleared flags, coprocessor registers at zero.
pub open spec fn spec_reset(b: BusView) -> CpuView {
    CpuView {
        regs: spec_reset_regs(),
        pc: RESET_VECTOR,
        pc_pred: 0xBFC00004u32,
        delay_due: None,
        delay_pending: None,
        branch_delay: false,
        branch_taken: false,
        ex_pc: RESET_VECTOR,
        ex_branch_delay: false,
        ex_branch_taken: false,
        cop0: Cop0View { status: 0, cause: 0 },
        bus: b,
    }
}

} // verus!

verus! {

/// The CPU: exclusive owner of the register file, the counter pair, the
/// delay queue, the coprocessor and the bus. Strictly single-threaded:
/// state changes only inside [`Cpu::clock`].
pub struct Cpu {
    regs: Vec<u32>,
    program_counter: u32,
    program_counter_predictor: u32,
    delay_due: Option<DelaySlot>,
    delay_pending: Option<DelaySlot>,
    branch_delay: bool,
    branch_taken: bool,
    ex_program_counter: u32,
    ex_branch_delay: bool,
    ex_branch_taken: bool,
    cop0: Cop0,
    bus: Bus,
}

impl View for Cpu {
    type V = CpuView;

    closed spec fn view(&self) -> CpuView {
        CpuView {
            regs: self.regs@,
            pc: self.program_counter,
            pc_pred: self.program_counter_predictor,
            delay_due: self.delay_due,
            delay_pending: self.delay_pending,
            branch_delay: self.branch_delay,
            branch_taken: self.branch_taken,
            ex_pc: self.ex_program_counter,
            ex_branch_delay: self.ex_branch_delay,
            ex_branch_taken: self.ex_branch_taken,
            cop0: self.cop0@,
            bus: self.bus@,
        }
    }
}

impl Cpu {
    /// The pipeline's structural invariant, established at construction and
    /// preserved by every step.
    pub open spec fn wf(&self) -> bool {
        self@.wf()
    }

    /// A pipeline at the reset state, owning the given bus.
    pub fn new(bus: Bus) -> (r: Cpu)
        requires
            bus.wf(),
        ensures
            r.wf(),
            r@ == spec_reset(bus@),
    {
        let ghost bus_view = bus@;
        let mut regs: Vec<u32> = Vec::new();
        regs.push(0);
        let mut i: usize = 1;
        while i < 32
            invariant
                1 <= i <= 32,
                regs@.len() == i,
                regs@[0] == 0,
                forall|j: int| 1 <= j < i ==> regs@[j] == 0xDEADBEEF,
            decreases 32 - i,
        {
            regs.push(0xDEADBEEF);
            i = i + 1;
        }
        let cpu = Cpu {
            regs,
            program_counter: RESET_VECTOR,
            program_counter_predictor: 0xBFC00004,
            delay_due: None,
            delay_pending: None,
            branch_delay: false,
            branch_taken: false,
            ex_program_counter: RESET_VECTOR,
            ex_branch_delay: false,
            ex_branch_taken: false,
            cop0: Cop0::new(),
            bus,
        };
        proof {
            assert(cpu@.regs =~= spec_reset_regs());
            assert(cpu@ =~= spec_reset(bus_view));
        }
        cpu
    }

    /// The value of a general-purpose register.
    pub fn reg(&self, register: usize) -> (r: u32)
        requires
            self.wf(),
            register < 32,
        ensures
            r == self@.regs[register as int],
    {
        self.regs[register]
    }

    /// The address of the instruction the next step will fetch.
    pub fn pc(&self) -> (r: u32)
        ensures
            r == self@.pc,
    {
        self.program_counter
    }

    /// The address the step after next will fetch, absent a redirect.
    pub fn pc_predictor(&self) -> (r: u32)
        ensures
            r == self@.pc_pred,
    {
        self.program_counter_predictor
    }

    /// Whether the most recently executed instruction was a branch or jump.
    pub fn branch_delay_flag(&self) -> (r: bool)
        ensures
            r == self@.branch_delay,
    {
        self.branch_delay
    }

    /// Whether the most recently executed branch or jump was taken.
    pub fn branch_taken_flag(&self) -> (r: bool)
        ensures
            r == self@.branch_taken,
    {
        self.branch_taken
    }

    /// The system coprocessor, for inspection.
    pub fn cop0(&self) -> (r: &Cop0)
        ensures
            r@ == self@.cop0,
    {
        &self.cop0
    }

    /// The bus, for inspection.
    pub fn bus(&self) -> (r: &Bus)
        ensures
            r@ == self@.bus,
    {
        &self.bus
    }

    /// Writes a register synchronously, cancelling a due delayed write to
    /// the same register.
    fn set_reg(&mut self, register: usize, value: u32)
        requires
            old(self).wf(),
            register < 32,
        ensures
            final(self).wf(),
            final(self)@ == spec_set_reg(old(self)@, register, value),
    {
        if register == 0 {
            return ;
        }
        self.regs[register] = value;
        if let Some(slot) = self.delay_due {
            if slot.register == register {
                self.delay_due = None;
            }
        }
        proof {
            assert(self@ =~= spec_set_reg(old(self)@, register, value));
        }
    }

    /// Enqueues a delayed register write into the not-yet-due slot.
    fn load_delay_slot(&mut self, register: usize, value: u32)
        requires
            old(self).wf(),
            register < 32,
        ensures
            final(self).wf(),
            final(self)@ == spec_load_delay(old(self)@, register, value),
    {
        if register == 0 {
            return ;
        }
        if let Some(slot) = self.delay_due {
            if slot.register == register {
                self.delay_due = None;
            }
        }
        self.delay_pending = Some(DelaySlot { register, value });
        proof {
            assert(self@ =~= spec_load_delay(old(self)@, register, value));
        }
    }

    /// Ages the delay queue: commits the due entry and shifts.
    fn move_delay_slots(&mut self)
        requires
            old(self).wf(),
        ensures
            final(self).wf(),
            final(self)@ == spec_age_delay(old(self)@),
    {
        if let Some(slot) = self.delay_due {
            self.regs[slot.register] = slot.value;
        }
        self.delay_due = self.delay_pending;
        self.delay_pending = None;
        proof {
            assert(self@ =~= spec_age_delay(old(self)@));
        }
    }

    /// Redirects predicted-next and raises both bookkeeping flags.
    fn jump(&mut self, target: u32)
        requires
            old(self).wf(),
        ensures
            final(self).wf(),
            final(self)@ == spec_jump(old(self)@, target),
    {
        self.branch_delay = true;
        self.branch_taken = true;
        self.program_counter_predictor = target;
        proof {
            assert(self@ =~= spec_jump(old(self)@, target));
        }
    }

    /// Raises an exception through the unified path.
    fn raise_exception(&mut self, e: Exception, cop: u32)
        requires
            old(self).wf(),
        ensures
            final(self).wf(),
            final(self)@ == spec_raise(old(self)@, e, cop),
    {
        let code = e.code();
        let mut cause = self.cop0.cause();
        cause.set_exception_code(code);
        cause.set_coprocessor_number(cop);
        cause.set_branch_flags(self.ex_branch_taken, self.ex_branch_delay);
        self.cop0.set_cause(cause.0);
        let st = self.cop0.status();
        self.cop0.set_status((st.0 & 0xFFFFFFC0) | ((st.0 << 2) & 0x3F));
        let vector: u32 = if st.boot_exception_vectors() == BootExceptionVectors::KSEG1 {
            0xBFC00180
        } else {
            0x80000080
        };
        self.program_counter = vector;
        self.program_counter_predictor = vector.wrapping_add(4);
        proof {
            assert(self@ =~= spec_raise(old(self)@, e, cop));
        }
    }
}

} // verus!

verus! {

impl Cpu {
    /// Decodes and executes one instruction word against the advanced
    /// state, exactly as [`spec_execute`] describes.
    #[verifier::rlimit(100)]
    fn execute(&mut self, instr: Instruction)
        requires
            old(self).wf(),
        ensures
            final(self).wf(),
            final(self)@ == spec_execute(old(self)@, instr.0),
    {
        let op = instr.decode();
        let rs_v = self.reg(instr.rs());
        let rt_v = self.reg(instr.rt());
        let rd = instr.rd();
        let rt = instr.rt();
        let imm_s = instr.imm_signed();
        let imm_z = instr.imm_zero();
        match op {
            Op::Sll => {
                let amount = instr.shift() as u32;
                self.set_reg(rd, rt_v << amount);
            },
            Op::Srl => {
                let amount = instr.shift() as u32;
                self.set_reg(rd, rt_v >> amount);
            },
            Op::Sra => {
                let amount = instr.shift() as u32;
                let v = if rt_v & 0x80000000 != 0 {
                    (rt_v >> amount) | !(0xFFFFFFFFu32 >> amount)
                } else {
                    rt_v >> amount
                };
                self.set_reg(rd, v);
            },
            Op::Sllv => {
                proof {
                    assert(rs_v & 0x1F < 32) by (bit_vector);
                }
                self.set_reg(rd, rt_v << (rs_v & 0x1F));
            },
            Op::Srlv => {
                proof {
                    assert(rs_v & 0x1F < 32) by (bit_vector);
                }
                self.set_reg(rd, rt_v >> (rs_v & 0x1F));
            },
            Op::Srav => {
                let amount = rs_v & 0x1F;
                proof {
                    assert(rs_v & 0x1F < 32) by (bit_vector);
                }
                let v = if rt_v & 0x80000000 != 0 {
                    (rt_v >> amount) | !(0xFFFFFFFFu32 >> amount)
                } else {
                    rt_v >> amount
                };
                self.set_reg(rd, v);
            },
            Op::Jr => {
                self.jump(rs_v);
            },
            Op::Jalr => {
                let return_address = self.program_counter_predictor;
                self.set_reg(rd, return_address);
                self.jump(rs_v);
            },
            Op::Syscall => {
                self.raise_exception(Exception::SystemCall, 0);
            },
            Op::Break => {
                self.raise_exception(Exception::Breakpoint, 0);
            },
            Op::Add => {
                let r = rs_v.wrapping_add(rt_v);
                if ((rs_v ^ rt_v) & 0x80000000) == 0 && ((rs_v ^ r) & 0x80000000) != 0 {
                    self.raise_exception(Exception::ArithmeticOverflow, 0);
                } else {
                    self.set_reg(rd, r);
                }
            },
            Op::Addu => {
                self.set_reg(rd, rs_v.wrapping_add(rt_v));
            },
            Op::Sub => {
                let r = rs_v.wrapping_sub(rt_v);
                if ((rs_v ^ rt_v) & 0x80000000) != 0 && ((rs_v ^ r) & 0x80000000) != 0 {
                    self.raise_exception(Exception::ArithmeticOverflow, 0);
                } else {
                    self.set_reg(rd, r);
                }
            },
            Op::Subu => {
                self.set_reg(rd, rs_v.wrapping_sub(rt_v));
            },
            Op::And => {
                self.set_reg(rd, rs_v & rt_v);
            },
            Op::Or => {
                self.set_reg(rd, rs_v | rt_v);
            },
            Op::Xor => {
                self.set_reg(rd, rs_v ^ rt_v);
            },
            Op::Nor => {
                self.set_reg(rd, !(rs_v | rt_v));
            },
            Op::Slt => {
                let v: u32 = if (rs_v ^ 0x80000000) < (rt_v ^ 0x80000000) {
                    1
                } else {
                    0
                };
                self.set_reg(rd, v);
            },
            Op::Sltu => {
                let v: u32 = if rs_v < rt_v {
                    1
                } else {
                    0
                };
                self.set_reg(rd, v);
            },
            Op::Beq | Op::Bne | Op::Blez | Op::Bgtz | Op::Bltz | Op::Bgez | Op::Bltzal
                | Op::Bgezal => {
                self.execute_branch(instr, op);
            },
            Op::J => {
                let target = jump_target(self.program_counter, instr.target());
                self.jump(target);
            },
            Op::Jal => {
                let return_address = self.program_counter_predictor;
                let target = jump_target(self.program_counter, instr.target());
                self.set_reg(31, return_address);
                self.jump(target);
            },
            Op::Addi => {
                let r = rs_v.wrapping_add(imm_s);
                if ((rs_v ^ imm_s) & 0x80000000) == 0 && ((rs_v ^ r) & 0x80000000) != 0 {
                    self.raise_exception(Exception::ArithmeticOverflow, 0);
                } else {
                    self.set_reg(rt, r);
                }
            },
            Op::Addiu => {
                self.set_reg(rt, rs_v.wrapping_add(imm_s));
            },
            Op::Slti => {
                let v: u32 = if (rs_v ^ 0x80000000) < (imm_s ^ 0x80000000) {
                    1
                } else {
                    0
                };
                self.set_reg(rt, v);
            },
            Op::Sltiu => {
                let v: u32 = if rs_v < imm_s {
                    1
                } else {
                    0
                };
                self.set_reg(rt, v);
            },
            Op::Andi => {
                self.set_reg(rt, rs_v & imm_z);
            },
            Op::Ori => {
                self.set_reg(rt, rs_v | imm_z);
            },
            Op::Xori => {
                self.set_reg(rt, rs_v ^ imm_z);
            },
            Op::Lui => {
                self.set_reg(rt, imm_z << 16);
            },
            Op::Mfc0 => {
                match self.cop0.load(rd) {
                    Some(v) => {
                        self.load_delay_slot(rt, v);
                    },
                    None => {
                        self.raise_exception(Exception::ReservedInstruction, 0);
                    },
                }
            },
            Op::Mtc0 => {
                self.cop0.store(rd, rt_v);
                proof {
                    assert(self@ =~= (CpuView {
                        cop0: spec_cop0_store(old(self)@.cop0, rd, rt_v),
                        ..old(self)@
                    }));
                }
            },
            Op::Rfe => {
                let st = self.cop0.status();
                self.cop0.set_status((st.0 & 0xFFFFFFF0) | ((st.0 >> 2) & 0x0F));
                proof {
                    assert(self@ =~= (CpuView {
                        cop0: Cop0View {
                            status: spec_status_pop(old(self)@.cop0.status),
                            ..old(self)@.cop0
                        },
                        ..old(self)@
                    }));
                }
            },
            Op::CopOther(n) => {
                proof {
                    lemma_cop_other_bounded(instr.0);
                }
                if n == 0 || self.cop0.status().bit(28 + n) {
                    self.raise_exception(Exception::ReservedInstruction, 0);
                } else {
                    self.raise_exception(Exception::CoprocessorUnusable, n);
                }
            },
            Op::Lb => {
                let address = rs_v.wrapping_add(imm_s);
                match self.bus.load8(address) {
                    Ok(v) => {
                        let x = v as u32;
                        let extended = if x & 0x80 != 0 {
                            x | 0xFFFFFF00
                        } else {
                            x
                        };
                        self.load_delay_slot(rt, extended);
                    },
                    Err(_) => {
                        self.raise_exception(Exception::AddressLoadError, 0);
                    },
                }
            },
            Op::Lbu => {
                let address = rs_v.wrapping_add(imm_s);
                match self.bus.load8(address) {
                    Ok(v) => {
                        self.load_delay_slot(rt, v as u32);
                    },
                    Err(_) => {
                        self.raise_exception(Exception::AddressLoadError, 0);
                    },
                }
            },
            Op::Lh => {
                let address = rs_v.wrapping_add(imm_s);
                if address % 2 != 0 {
                    self.raise_exception(Exception::AddressLoadError, 0);
                } else {
                    match self.bus.load16(address) {
                        Ok(v) => {
                            let x = v as u32;
                            let extended = if x & 0x8000 != 0 {
                                x | 0xFFFF0000
                            } else {
                                x
                            };
                            self.load_delay_slot(rt, extended);
                        },
                        Err(_) => {
                            self.raise_exception(Exception::AddressLoadError, 0);
                        },
                    }
                }
            },
            Op::Lhu => {
                let address = rs_v.wrapping_add(imm_s);
                if address % 2 != 0 {
                    self.raise_exception(Exception::AddressLoadError, 0);
                } else {
                    match self.bus.load16(address) {
                        Ok(v) => {
                            self.load_delay_slot(rt, v as u32);
                        },
                        Err(_) => {
                            self.raise_exception(Exception::AddressLoadError, 0);
                        },
                    }
                }
            },
            Op::Lw => {
                let address = rs_v.wrapping_add(imm_s);
                if address % 4 != 0 {
                    self.raise_exception(Exception::AddressLoadError, 0);
                } else {
                    match self.bus.load32(address) {
                        Ok(v) => {
                            self.load_delay_slot(rt, v);
                        },
                        Err(_) => {
                            self.raise_exception(Exception::AddressLoadError, 0);
                        },
                    }
                }
            },
            Op::Sb => {
                let address = rs_v.wrapping_add(imm_s);
                if self.cop0.is_cache_isolated() {
                    // Store swallowed while the cache is isolated; cache
                    // content itself is deliberately not modeled.
                } else {
                    proof {
                        assert(rt_v & 0xFF < 256) by (bit_vector);
                    }
                    self.bus.store8(address, (rt_v & 0xFF) as u8);
                    proof {
                        assert(self@ =~= (CpuView {
                            bus: spec_bus_store8(old(self)@.bus, address, (rt_v & 0xFF) as u8).0,
                            ..old(self)@
                        }));
                    }
                }
            },
            Op::Sh => {
                let address = rs_v.wrapping_add(imm_s);
                if address % 2 != 0 {
                    self.raise_exception(Exception::AddressStoreError, 0);
                } else if self.cop0.is_cache_isolated() {
                    // Store swallowed while the cache is isolated.
                } else {
                    proof {
                        assert(rt_v & 0xFFFF < 0x10000) by (bit_vector);
                    }
                    self.bus.store16(address, (rt_v & 0xFFFF) as u16);
                    proof {
                        assert(self@ =~= (CpuView {
                            bus: spec_bus_store16(
                                old(self)@.bus,
                                address,
                                (rt_v & 0xFFFF) as u16,
                            ).0,
                            ..old(self)@
                        }));
                    }
                }
            },
            Op::Sw => {
                let address = rs_v.wrapping_add(imm_s);
                if address % 4 != 0 {
                    self.raise_exception(Exception::AddressStoreError, 0);
                } else if self.cop0.is_cache_isolated() {
                    // Store swallowed while the cache is isolated.
                } else {
                    self.bus.store32(address, rt_v);
                    proof {
                        assert(self@ =~= (CpuView {
                            bus: spec_bus_store32(old(self)@.bus, address, rt_v).0,
                            ..old(self)@
                        }));
                    }
                }
            },
            Op::Reserved => {
                self.raise_exception(Exception::ReservedInstruction, 0);
            },
        }
    }

    /// Executes one conditional branch: raises branch-delay, links for the
    /// linking variants, and redirects only when the condition holds.
    fn execute_branch(&mut self, instr: Instruction, op: Op)
        requires
            old(self).wf(),
            spec_is_branch(op),
            op == spec_decode(instr.0),
        ensures
            final(self).wf(),
            final(self)@ == spec_execute_branch(old(self)@, instr.0),
    {
        let rs_v = self.reg(instr.rs());
        let rt_v = self.reg(instr.rt());
        let taken = match op {
            Op::Beq => rs_v == rt_v,
            Op::Bne => rs_v != rt_v,
            Op::Blez => rs_v == 0 || rs_v & 0x80000000 != 0,
            Op::Bgtz => rs_v != 0 && rs_v & 0x80000000 == 0,
            Op::Bltz | Op::Bltzal => rs_v & 0x80000000 != 0,
            _ => rs_v & 0x80000000 == 0,
        };
        let ghost pre = self@;
        self.branch_delay = true;
        proof {
            assert(self@ =~= (CpuView { branch_delay: true, ..pre }));
        }
        if matches!(op, Op::Bltzal | Op::Bgezal) {
            let return_address = self.program_counter_predictor;
            self.set_reg(31, return_address);
        }
        if taken {
            let target = self.ex_program_counter.wrapping_add(instr.imm_signed() << 2);
            self.branch_taken = true;
            self.program_counter_predictor = target;
            proof {
                assert(self@ =~= spec_execute_branch(pre, instr.0));
            }
        }
    }

    /// Runs exactly one instruction: fetch, advance, dispatch, age the
    /// delay queue. The finest unit of observability: the only valid point
    /// for a host to inspect or snapshot state is between two calls.
    pub fn clock(&mut self)
        requires
            old(self).wf(),
        ensures
            final(self).wf(),
            final(self)@ == spec_step(old(self)@),
    {
        let pc = self.program_counter;
        self.ex_program_counter = pc;
        self.program_counter = self.program_counter_predictor;
        self.program_counter_predictor = self.program_counter.wrapping_add(4);
        self.ex_branch_delay = self.branch_delay;
        self.ex_branch_taken = self.branch_taken;
        self.branch_delay = false;
        self.branch_taken = false;
        proof {
            assert(self@ =~= spec_advance(old(self)@));
        }
        if pc % 4 != 0 {
            self.raise_exception(Exception::AddressLoadError, 0);
        } else {
            let fetched = self.bus.load32(pc);
            match fetched {
                Ok(w) => {
                    self.execute(Instruction(w));
                },
                Err(_) => {
                    self.raise_exception(Exception::AddressLoadError, 0);
                },
            }
        }
        self.move_delay_slots();
    }
}

/// The jump target: the top 4 bits of the current program counter
/// concatenated with the 26-bit target field shifted left 2.
pub fn jump_target(pc: u32, field: u32) -> (r: u32)
    ensures
        r == spec_jump_target(pc, field),
{
    (pc & 0xF0000000) | (field << 2)
}

} // verus!

verus! {

/// Register index 0 always reads as zero: writing any value to index 0 is a
/// no-op, and a write to any register index leaves index 0 at zero.
pub proof fn lemma_register_zero_is_constant(s: CpuView, register: usize, value: u32)
    requires
        s.wf(),
        register < 32,
    ensures
        spec_set_reg(s, 0, value) == s,
        spec_set_reg(s, register, value).regs[0] == 0,
{
}

/// The load-delay rule. A delayed write enqueued while the queue is empty
/// is not visible in the register file after the step that produced it ages
/// the queue — the immediately following instruction still reads the old
/// value — and it is visible after one more aging, so the instruction two
/// steps later reads the loaded value. Every load-class operation of
/// [`spec_execute`] enqueues through [`spec_load_delay`], and every step
/// ends in exactly one [`spec_age_delay`].
pub proof fn lemma_load_delay_visibility(s: CpuView, register: usize, value: u32)
    requires
        s.wf(),
        1 <= register < 32,
        s.delay_due is None,
        s.delay_pending is None,
    ensures
        spec_age_delay(spec_load_delay(s, register, value)).regs == s.regs,
        spec_age_delay(spec_age_delay(spec_load_delay(s, register, value))).regs[register as int]
            == value,
{
}

/// Most-recent-write-wins. A synchronous register write issued while a
/// pending, not-yet-committed delayed write to the same register exists
/// cancels that delayed write: after the step's aging the register holds
/// the synchronous value, whatever the delayed write would have stored.
pub proof fn lemma_sync_write_cancels_pending(
    s: CpuView,
    register: usize,
    pending: u32,
    value: u32,
)
    requires
        s.wf(),
        1 <= register < 32,
        s.delay_due == Some(DelaySlot { register, value: pending }),
    ensures
        spec_set_reg(s, register, value).delay_due is None,
        spec_age_delay(spec_set_reg(s, register, value)).regs[register as int] == value,
{
}

/// A branch that is not taken still raises the branch-delay bookkeeping
/// flag (needed for accurate Cause context on a later exception) but leaves
/// the counter pair exactly as a non-branch instruction would: predicted
/// next stays at current plus four, and branch-taken stays down.
pub proof fn lemma_branch_not_taken_bookkeeping(s: CpuView, w: u32)
    requires
        s.wf(),
        spec_is_branch(spec_decode(w)),
        !spec_branch_cond(s, w),
    ensures
        spec_execute(s, w).branch_delay == true,
        spec_execute(s, w).branch_taken == s.branch_taken,
        spec_execute(s, w).pc == s.pc,
        spec_execute(s, w).pc_pred == s.pc_pred,
{
}

} // verus!

verus! {

/// Executing any instruction word preserves the pipeline invariant: the
/// register file keeps its shape and register 0 stays zero, the delay queue
/// keeps aiming at real registers, and the devices keep their sizes.
pub proof fn lemma_execute_preserves_wf(s: CpuView, w: u32)
    requires
        s.wf(),
    ensures
        spec_execute(s, w).wf(),
{
    assert((w >> 11) & 0x1F < 32 && (w >> 16) & 0x1F < 32 && (w >> 21) & 0x1F < 32)
        by (bit_vector);
    assert forall|r: usize, v: u32| r < 32 implies #[trigger] spec_set_reg(s, r, v).wf() by {}
    assert forall|r: usize, v: u32| r < 32 implies #[trigger] spec_load_delay(s, r, v).wf() by {}
    assert forall|e: Exception, c: u32| #[trigger] spec_raise(s, e, c).wf() by {}
    assert forall|t: u32| #[trigger] spec_jump(s, t).wf() by {}
    assert(spec_execute_branch(s, w).wf());
    assert(forall|x: u32| #[trigger] (x & 0x1FFFFF) < 0x200000) by (bit_vector);
    assert forall|a: u32, v: u8| #[trigger] spec_bus_store8(s.bus, a, v).0.wf() by {}
    assert forall|a: u32, v: u16| #[trigger] spec_bus_store16(s.bus, a, v).0.wf() by {}
    assert forall|a: u32, v: u32| #[trigger] spec_bus_store32(s.bus, a, v).0.wf() by {}
}

/// Stepping preserves the pipeline invariant, whatever the fetched word and
/// whatever fault the step raises. In particular register 0 reads as zero
/// in every state reachable by stepping.
pub proof fn lemma_step_preserves_wf(s: CpuView)
    requires
        s.wf(),
    ensures
        spec_step(s).wf(),
        spec_step(s).regs[0] == 0,
{
    let advanced = spec_advance(s);
    if s.pc % 4 == 0 {
        match spec_bus_load32(s.bus, s.pc) {
            Ok(w) => {
                lemma_execute_preserves_wf(advanced, w);
            },
            Err(_) => {},
        }
    }
}

} // verus!

verus! {

/// The load-delay rule at instruction level: a step that fetches and
/// executes a word-load whose bus read succeeds leaves the whole register
/// file untouched — the immediately following instruction still reads the
/// old values — and parks the loaded value in the due slot, from where
/// [`spec_age_delay`] commits it at the end of the following step.
pub proof fn lemma_load_is_invisible_in_its_own_step(s: CpuView, w: u32, v: u32)
    requires
        s.wf(),
        s.delay_due is None,
        s.delay_pending is None,
        s.pc % 4 == 0,
        spec_bus_load32(s.bus, s.pc) == Ok::<u32, Exception>(w),
        spec_decode(w) == Op::Lw,
        spec_rt(w) != 0,
        ({
            let address = s.regs[spec_rs(w) as int].wrapping_add(spec_imm_signed(w));
            address % 4 == 0 && spec_bus_load32(s.bus, address) == Ok::<u32, Exception>(v)
        }),
    ensures
        spec_step(s).regs == s.regs,
        spec_step(s).delay_due == Some(DelaySlot { register: spec_rt(w) as usize, value: v }),
{
}

} // verus!
