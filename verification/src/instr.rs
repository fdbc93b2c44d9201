//! Pure bit-field view over a 32-bit instruction word, and the decoder that
//! maps a word to the operation it denotes.

use vstd::prelude::*;

verus! {

/// Bits 31-26: primary opcode.
pub open spec fn spec_opcode(w: u32) -> u32 {
    (w >> 26) & 0x3F
}

/// Bits 25-21: source register index.
pub open spec fn spec_rs(w: u32) -> u32 {
    (w >> 21) & 0x1F
}

/// Bits 20-16: target register index.
pub open spec fn spec_rt(w: u32) -> u32 {
    (w >> 16) & 0x1F
}

/// Bits 15-11: destination register index.
pub open spec fn spec_rd(w: u32) -> u32 {
    (w >> 11) & 0x1F
}

/// Bits 10-6: shift amount.
pub open spec fn spec_shift(w: u32) -> u32 {
    (w >> 6) & 0x1F
}

/// Bits 5-0: secondary function field.
pub open spec fn spec_function(w: u32) -> u32 {
    w & 0x3F
}

/// Bits 15-0, zero-extended.
pub open spec fn spec_imm_zero(w: u32) -> u32 {
    w & 0xFFFF
}

/// A 16-bit value sign-extended to 32 bits.
pub open spec fn spec_sign_extend16(x: u32) -> u32 {
    if x & 0x8000 != 0 {
        x | 0xFFFF0000
    } else {
        x
    }
}

/// An 8-bit value sign-extended to 32 bits.
pub open spec fn spec_sign_extend8(x: u32) -> u32 {
    if x & 0x80 != 0 {
        x | 0xFFFFFF00
    } else {
        x
    }
}

/// Bits 15-0, sign-extended.
pub open spec fn spec_imm_signed(w: u32) -> u32 {
    spec_sign_extend16(w & 0xFFFF)
}

/// Bits 25-0: the 26-bit jump target field.
pub open spec fn spec_target(w: u32) -> u32 {
    w & 0x3FFFFFF
}

/// An immutable 32-bit instruction word. A pure derived view: every accessor
/// extracts a fixed bit field.
pub struct Instruction(pub u32);

impl Instruction {
    pub fn opcode(&self) -> (r: usize)
        ensures
            r == spec_opcode(self.0) as usize,
            r < 64,
    {
        let w = self.0;
        proof {
            assert((w >> 26) & 0x3F < 64) by (bit_vector);
        }
        ((w >> 26) & 0x3F) as usize
    }

    pub fn rs(&self) -> (r: usize)
        ensures
            r == spec_rs(self.0) as usize,
            r < 32,
    {
        let w = self.0;
        proof {
            assert((w >> 21) & 0x1F < 32) by (bit_vector);
        }
        ((w >> 21) & 0x1F) as usize
    }

    pub fn rt(&self) -> (r: usize)
        ensures
            r == spec_rt(self.0) as usize,
            r < 32,
    {
        let w = self.0;
        proof {
            assert((w >> 16) & 0x1F < 32) by (bit_vector);
        }
        ((w >> 16) & 0x1F) as usize
    }

    pub fn rd(&self) -> (r: usize)
        ensures
            r == spec_rd(self.0) as usize,
            r < 32,
    {
        let w = self.0;
        proof {
            assert((w >> 11) & 0x1F < 32) by (bit_vector);
        }
        ((w >> 11) & 0x1F) as usize
    }

    pub fn shift(&self) -> (r: usize)
        ensures
            r == spec_shift(self.0) as usize,
            r < 32,
    {
        let w = self.0;
        proof {
            assert((w >> 6) & 0x1F < 32) by (bit_vector);
        }
        ((w >> 6) & 0x1F) as usize
    }

    pub fn function(&self) -> (r: usize)
        ensures
            r == spec_function(self.0) as usize,
            r < 64,
    {
        let w = self.0;
        proof {
            assert(w & 0x3F < 64) by (bit_vector);
        }
        (w & 0x3F) as usize
    }

    pub fn imm_zero(&self) -> (r: u32)
        ensures
            r == spec_imm_zero(self.0),
    {
        self.0 & 0xFFFF
    }

    pub fn imm_signed(&self) -> (r: u32)
        ensures
            r == spec_imm_signed(self.0),
    {
        let x = self.0 & 0xFFFF;
        if x & 0x8000 != 0 {
            x | 0xFFFF0000
        } else {
            x
        }
    }

    pub fn target(&self) -> (r: u32)
        ensures
            r == spec_target(self.0),
            r < 0x4000000,
    {
        let w = self.0;
        proof {
            assert(w & 0x3FFFFFF < 0x4000000) by (bit_vector);
        }
        w & 0x3FFFFFF
    }
}

/// The operation an instruction word denotes. Every word decodes to exactly
/// one variant; words with no defined semantics decode to `Reserved`, and
/// instructions that target an unmodeled coprocessor decode to `CopOther`
/// with the coprocessor number.
#[derive(Clone, Copy, Debug, PartialEq, Eq, Structural)]
pub enum Op {
    Sll,
    Srl,
    Sra,
    Sllv,
    Srlv,
    Srav,
    Jr,
    Jalr,
    Syscall,
    Break,
    Add,
    Addu,
    Sub,
    Subu,
    And,
    Or,
    Xor,
    Nor,
    Slt,
    Sltu,
    Bltz,
    Bgez,
    Bltzal,
    Bgezal,
    J,
    Jal,
    Beq,
    Bne,
    Blez,
    Bgtz,
    Addi,
    Addiu,
    Slti,
    Sltiu,
    Andi,
    Ori,
    Xori,
    Lui,
    Mfc0,
    Mtc0,
    Rfe,
    CopOther(u32),
    Lb,
    Lh,
    Lw,
    Lbu,
    Lhu,
    Sb,
    Sh,
    Sw,
    Reserved,
}

/// Decoding of the secondary 64-entry table reached through opcode 0.
pub open spec fn spec_decode_function(w: u32) -> Op {
    let f = spec_function(w);
    if f == 0x00 {
        Op::Sll
    } else if f == 0x02 {
        Op::Srl
    } else if f == 0x03 {
        Op::Sra
    } else if f == 0x04 {
        Op::Sllv
    } else if f == 0x06 {
        Op::Srlv
    } else if f == 0x07 {
        Op::Srav
    } else if f == 0x08 {
        Op::Jr
    } else if f == 0x09 {
        Op::Jalr
    } else if f == 0x0C {
        Op::Syscall
    } else if f == 0x0D {
        Op::Break
    } else if f == 0x20 {
        Op::Add
    } else if f == 0x21 {
        Op::Addu
    } else if f == 0x22 {
        Op::Sub
    } else if f == 0x23 {
        Op::Subu
    } else if f == 0x24 {
        Op::And
    } else if f == 0x25 {
        Op::Or
    } else if f == 0x26 {
        Op::Xor
    } else if f == 0x27 {
        Op::Nor
    } else if f == 0x2A {
        Op::Slt
    } else if f == 0x2B {
        Op::Sltu
    } else {
        Op::Reserved
    }
}

/// Decoding of the branch family sharing opcode 1, distinguished by the
/// `rt` field.
pub open spec fn spec_decode_bcond(w: u32) -> Op {
    let rt = spec_rt(w);
    if rt == 0x00 {
        Op::Bltz
    } else if rt == 0x01 {
        Op::Bgez
    } else if rt == 0x10 {
        Op::Bltzal
    } else if rt == 0x11 {
        Op::Bgezal
    } else {
        Op::Reserved
    }
}

/// Decoding of the system-coprocessor opcode, distinguished by the `rs`
/// field: register moves in both directions and the return-from-exception
/// form.
pub open spec fn spec_decode_cop0(w: u32) -> Op {
    let rs = spec_rs(w);
    if rs == 0x00 {
        Op::Mfc0
    } else if rs == 0x04 {
        Op::Mtc0
    } else if rs == 0x10 && spec_function(w) == 0x10 {
        Op::Rfe
    } else {
        Op::Reserved
    }
}

/// The primary 64-entry dispatch: maps an instruction word to its operation.
pub open spec fn spec_decode(w: u32) -> Op {
    let op = spec_opcode(w);
    if op == 0x00 {
        spec_decode_function(w)
    } else if op == 0x01 {
        spec_decode_bcond(w)
    } else if op == 0x02 {
        Op::J
    } else if op == 0x03 {
        Op::Jal
    } else if op == 0x04 {
        Op::Beq
    } else if op == 0x05 {
        Op::Bne
    } else if op == 0x06 {
        Op::Blez
    } else if op == 0x07 {
        Op::Bgtz
    } else if op == 0x08 {
        Op::Addi
    } else if op == 0x09 {
        Op::Addiu
    } else if op == 0x0A {
        Op::Slti
    } else if op == 0x0B {
        Op::Sltiu
    } else if op == 0x0C {
        Op::Andi
    } else if op == 0x0D {
        Op::Ori
    } else if op == 0x0E {
        Op::Xori
    } else if op == 0x0F {
        Op::Lui
    } else if op == 0x10 {
        spec_decode_cop0(w)
    } else if op == 0x11 {
        Op::CopOther(1)
    } else if op == 0x12 {
        Op::CopOther(2)
    } else if op == 0x13 {
        Op::CopOther(3)
    } else if op == 0x20 {
        Op::Lb
    } else if op == 0x21 {
        Op::Lh
    } else if op == 0x23 {
        Op::Lw
    } else if op == 0x24 {
        Op::Lbu
    } else if op == 0x25 {
        Op::Lhu
    } else if op == 0x28 {
        Op::Sb
    } else if op == 0x29 {
        Op::Sh
    } else if op == 0x2B {
        Op::Sw
    } else if op == 0x30 || op == 0x31 || op == 0x32 || op == 0x33 {
        Op::CopOther(op & 0x3)
    } else if op == 0x38 || op == 0x39 || op == 0x3A || op == 0x3B {
        Op::CopOther(op & 0x3)
    } else {
        Op::Reserved
    }
}

impl Instruction {
    /// Resolves this word to its operation, as the dispatch tables would.
    pub fn decode(&self) -> (op: Op)
        ensures
            op == spec_decode(self.0),
    {
        let w = self.0;
        let opcode = (w >> 26) & 0x3F;
        let function = w & 0x3F;
        let rs = (w >> 21) & 0x1F;
        let rt = (w >> 16) & 0x1F;
        if opcode == 0x00 {
            if function == 0x00 {
                Op::Sll
            } else if function == 0x02 {
                Op::Srl
            } else if function == 0x03 {
                Op::Sra
            } else if function == 0x04 {
                Op::Sllv
            } else if function == 0x06 {
                Op::Srlv
            } else if function == 0x07 {
                Op::Srav
            } else if function == 0x08 {
                Op::Jr
            } else if function == 0x09 {
                Op::Jalr
            } else if function == 0x0C {
                Op::Syscall
            } else if function == 0x0D {
                Op::Break
            } else if function == 0x20 {
                Op::Add
            } else if function == 0x21 {
                Op::Addu
            } else if function == 0x22 {
                Op::Sub
            } else if function == 0x23 {
                Op::Subu
            } else if function == 0x24 {
                Op::And
            } else if function == 0x25 {
                Op::Or
            } else if function == 0x26 {
                Op::Xor
            } else if function == 0x27 {
                Op::Nor
            } else if function == 0x2A {
                Op::Slt
            } else if function == 0x2B {
                Op::Sltu
            } else {
                Op::Reserved
            }
        } else if opcode == 0x01 {
            if rt == 0x00 {
                Op::Bltz
            } else if rt == 0x01 {
                Op::Bgez
            } else if rt == 0x10 {
                Op::Bltzal
            } else if rt == 0x11 {
                Op::Bgezal
            } else {
                Op::Reserved
            }
        } else if opcode == 0x02 {
            Op::J
        } else if opcode == 0x03 {
            Op::Jal
        } else if opcode == 0x04 {
            Op::Beq
        } else if opcode == 0x05 {
            Op::Bne
        } else if opcode == 0x06 {
            Op::Blez
        } else if opcode == 0x07 {
            Op::Bgtz
        } else if opcode == 0x08 {
            Op::Addi
        } else if opcode == 0x09 {
            Op::Addiu
        } else if opcode == 0x0A {
            Op::Slti
        } else if opcode == 0x0B {
            Op::Sltiu
        } else if opcode == 0x0C {
            Op::Andi
        } else if opcode == 0x0D {
            Op::Ori
        } else if opcode == 0x0E {
            Op::Xori
        } else if opcode == 0x0F {
            Op::Lui
        } else if opcode == 0x10 {
            if rs == 0x00 {
                Op::Mfc0
            } else if rs == 0x04 {
                Op::Mtc0
            } else if rs == 0x10 && function == 0x10 {
                Op::Rfe
            } else {
                Op::Reserved
            }
        } else if opcode == 0x11 {
            Op::CopOther(1)
        } else if opcode == 0x12 {
            Op::CopOther(2)
        } else if opcode == 0x13 {
            Op::CopOther(3)
        } else if opcode == 0x20 {
            Op::Lb
        } else if opcode == 0x21 {
            Op::Lh
        } else if opcode == 0x23 {
            Op::Lw
        } else if opcode == 0x24 {
            Op::Lbu
        } else if opcode == 0x25 {
            Op::Lhu
        } else if opcode == 0x28 {
            Op::Sb
        } else if opcode == 0x29 {
            Op::Sh
        } else if opcode == 0x2B {
            Op::Sw
        } else if opcode == 0x30 || opcode == 0x31 || opcode == 0x32 || opcode == 0x33 {
            Op::CopOther(opcode & 0x3)
        } else if opcode == 0x38 || opcode == 0x39 || opcode == 0x3A || opcode == 0x3B {
            Op::CopOther(opcode & 0x3)
        } else {
            Op::Reserved
        }
    }
}

} // verus!
