//! The instruction decoder: from a 32-bit word to an instruction with its
//! operands.

use crate::bits::{field, get_bits};
use crate::exception::Exception;
use vstd::prelude::*;

verus! {

/// The instructions of the base integer set and of the CSR extension, each
/// with the operands of its encoding class.
#[derive(Clone, Copy, Debug, PartialEq, Eq)]
pub enum Instruction {
    // R-Type
    Add(RType),
    Sub(RType),
    Sll(RType),
    Slt(RType),
    Sltu(RType),
    Xor(RType),
    Srl(RType),
    Sra(RType),
    Or(RType),
    And(RType),
    // I-Type
    Jalr(IType),
    Addi(IType),
    Slli(IType),
    Slti(IType),
    Sltiu(IType),
    Xori(IType),
    Srli(IType),
    Srai(IType),
    Ori(IType),
    Andi(IType),
    Lb(IType),
    Lh(IType),
    Lw(IType),
    Lbu(IType),
    Lhu(IType),
    Csrrw(IType),
    Csrrs(IType),
    Csrrc(IType),
    Csrrwi(IType),
    Csrrsi(IType),
    Csrrci(IType),
    // S-Type
    Sb(SType),
    Sh(SType),
    Sw(SType),
    // B-Type
    Beq(BType),
    Bne(BType),
    Blt(BType),
    Bge(BType),
    Bltu(BType),
    Bgeu(BType),
    // J-Type
    Jal(JType),
    // U-Type
    Lui(UType),
    Auipc(UType),
}

/// Operands of a register-register instruction.
#[derive(Clone, Copy, Debug, PartialEq, Eq)]
pub struct RType {
    pub rd: usize,
    pub rs1: usize,
    pub rs2: usize,
}

/// Operands of a register-immediate instruction. `imm` holds the 12-bit
/// immediate without sign extension.
#[derive(Clone, Copy, Debug, PartialEq, Eq)]
pub struct IType {
    pub rd: usize,
    pub rs1: usize,
    pub imm: u16,
}

/// Operands of a store. `imm` holds the 12-bit offset without sign extension.
#[derive(Clone, Copy, Debug, PartialEq, Eq)]
pub struct SType {
    pub rs1: usize,
    pub rs2: usize,
    pub imm: u16,
}

/// Operands of a branch. `imm` holds the 13-bit byte offset without sign
/// extension.
#[derive(Clone, Copy, Debug, PartialEq, Eq)]
pub struct BType {
    pub rs1: usize,
    pub rs2: usize,
    pub imm: u16,
}

/// Operands of an upper-immediate instruction. `imm` holds the upper 20 bits
/// in place, above 12 zero bits.
#[derive(Clone, Copy, Debug, PartialEq, Eq)]
pub struct UType {
    pub rd: usize,
    pub imm: u32,
}

/// Operands of a jump. `imm` holds the 21-bit byte offset without sign
/// extension.
#[derive(Clone, Copy, Debug, PartialEq, Eq)]
pub struct JType {
    pub rd: usize,
    pub imm: u32,
}

/// The opcode of a word: bits 0 to 6.
pub open spec fn opcode_of(w: u32) -> u32 {
    field(w, 0, 7)
}

/// The destination register index of a word: bits 7 to 11.
pub open spec fn rd_of(w: u32) -> usize {
    field(w, 7, 12) as usize
}

/// The first function code of a word: bits 12 to 14.
pub open spec fn funct3_of(w: u32) -> u32 {
    field(w, 12, 15)
}

/// The first source register index of a word: bits 15 to 19.
pub open spec fn rs1_of(w: u32) -> usize {
    field(w, 15, 20) as usize
}

/// The second source register index of a word: bits 20 to 24.
pub open spec fn rs2_of(w: u32) -> usize {
    field(w, 20, 25) as usize
}

/// The second function code of a word: bits 25 to 31.
pub open spec fn funct7_of(w: u32) -> u32 {
    field(w, 25, 32)
}

/// The I-type immediate of a word: bits 20 to 31.
pub open spec fn i_imm_of(w: u32) -> u16 {
    field(w, 20, 32) as u16
}

/// The S-type immediate of a word: bits 25 to 31 above bits 7 to 11.
pub open spec fn s_imm_of(w: u32) -> u16 {
    ((field(w, 25, 32) << 5) | field(w, 7, 12)) as u16
}

/// The B-type immediate of a word: bit 31, bit 7, bits 25 to 30, bits 8 to
/// 11 and a zero bit, from the top down.
pub open spec fn b_imm_of(w: u32) -> u16 {
    ((field(w, 31, 32) << 12)
        | (field(w, 7, 8) << 11)
        | (field(w, 25, 31) << 5)
        | (field(w, 8, 12) << 1)) as u16
}

/// The U-type immediate of a word: bits 12 to 31, left in place.
pub open spec fn u_imm_of(w: u32) -> u32 {
    field(w, 12, 32) << 12
}

/// The J-type immediate of a word: bit 31, bits 12 to 19, bit 20, bits 21
/// to 30 and a zero bit, from the top down.
pub open spec fn j_imm_of(w: u32) -> u32 {
    (field(w, 31, 32) << 20)
        | (field(w, 12, 20) << 12)
        | (field(w, 20, 21) << 11)
        | (field(w, 21, 31) << 1)
}

impl RType {
    /// The operands that a word holds, read as R-type.
    pub open spec fn of(w: u32) -> RType {
        RType { rd: rd_of(w), rs1: rs1_of(w), rs2: rs2_of(w) }
    }

    /// Every register index names one of the 32 registers.
    pub open spec fn wf(&self) -> bool {
        self.rd < 32 && self.rs1 < 32 && self.rs2 < 32
    }

    /// Reads the operands of an R-type word.
    pub fn new(instruction: u32) -> (r: Self)
        ensures
            r == RType::of(instruction),
            r.wf(),
    {
        proof {
            lemma_register_fields(instruction);
        }
        Self {
            rd: get_bits(instruction, 7, 12) as usize,
            rs1: get_bits(instruction, 15, 20) as usize,
            rs2: get_bits(instruction, 20, 25) as usize,
        }
    }
}

impl IType {
    /// The operands that a word holds, read as I-type.
    pub open spec fn of(w: u32) -> IType {
        IType { rd: rd_of(w), rs1: rs1_of(w), imm: i_imm_of(w) }
    }

    /// Every register index names one of the 32 registers.
    pub open spec fn wf(&self) -> bool {
        self.rd < 32 && self.rs1 < 32
    }

    /// Reads the operands of an I-type word.
    pub fn new(instruction: u32) -> (r: Self)
        ensures
            r == IType::of(instruction),
            r.wf(),
            r.imm < 0x1000,
    {
        proof {
            lemma_register_fields(instruction);
            lemma_immediate_ranges(instruction);
        }
        let imm = get_bits(instruction, 20, 32);
        Self {
            rd: get_bits(instruction, 7, 12) as usize,
            rs1: get_bits(instruction, 15, 20) as usize,
            imm: imm as u16,
        }
    }
}

impl SType {
    /// The operands that a word holds, read as S-type.
    pub open spec fn of(w: u32) -> SType {
        SType { rs1: rs1_of(w), rs2: rs2_of(w), imm: s_imm_of(w) }
    }

    /// Every register index names one of the 32 registers.
    pub open spec fn wf(&self) -> bool {
        self.rs1 < 32 && self.rs2 < 32
    }

    /// Reads the operands of an S-type word.
    pub fn new(instruction: u32) -> (r: Self)
        ensures
            r == SType::of(instruction),
            r.wf(),
            r.imm < 0x1000,
    {
        proof {
            lemma_register_fields(instruction);
            lemma_immediate_ranges(instruction);
        }
        let imm = (get_bits(instruction, 25, 32) << 5) | get_bits(instruction, 7, 12);
        Self {
            rs1: get_bits(instruction, 15, 20) as usize,
            rs2: get_bits(instruction, 20, 25) as usize,
            imm: imm as u16,
        }
    }
}

impl BType {
    /// The operands that a word holds, read as B-type.
    pub open spec fn of(w: u32) -> BType {
        BType { rs1: rs1_of(w), rs2: rs2_of(w), imm: b_imm_of(w) }
    }

    /// Every register index names one of the 32 registers.
    pub open spec fn wf(&self) -> bool {
        self.rs1 < 32 && self.rs2 < 32
    }

    /// Reads the operands of a B-type word.
    pub fn new(instruction: u32) -> (r: Self)
        ensures
            r == BType::of(instruction),
            r.wf(),
            r.imm < 0x2000,
            r.imm % 2 == 0,
    {
        proof {
            lemma_register_fields(instruction);
            lemma_immediate_ranges(instruction);
        }
        let imm = (get_bits(instruction, 31, 32) << 12)
            | (get_bits(instruction, 7, 8) << 11)
            | (get_bits(instruction, 25, 31) << 5)
            | (get_bits(instruction, 8, 12) << 1);
        Self {
            rs1: get_bits(instruction, 15, 20) as usize,
            rs2: get_bits(instruction, 20, 25) as usize,
            imm: imm as u16,
        }
    }
}

impl UType {
    /// The operands that a word holds, read as U-type.
    pub open spec fn of(w: u32) -> UType {
        UType { rd: rd_of(w), imm: u_imm_of(w) }
    }

    /// The register index names one of the 32 registers.
    pub open spec fn wf(&self) -> bool {
        self.rd < 32
    }

    /// Reads the operands of a U-type word.
    pub fn new(instruction: u32) -> (r: Self)
        ensures
            r == UType::of(instruction),
            r.wf(),
            r.imm & 0xfff == 0,
    {
        proof {
            lemma_register_fields(instruction);
            lemma_immediate_ranges(instruction);
        }
        let imm = get_bits(instruction, 12, 32) << 12;
        Self { rd: get_bits(instruction, 7, 12) as usize, imm }
    }
}

impl JType {
    /// The operands that a word holds, read as J-type.
    pub open spec fn of(w: u32) -> JType {
        JType { rd: rd_of(w), imm: j_imm_of(w) }
    }

    /// The register index names one of the 32 registers.
    pub open spec fn wf(&self) -> bool {
        self.rd < 32
    }

    /// Reads the operands of a J-type word.
    pub fn new(instruction: u32) -> (r: Self)
        ensures
            r == JType::of(instruction),
            r.wf(),
            r.imm < 0x20_0000,
            r.imm % 2 == 0,
    {
        proof {
            lemma_register_fields(instruction);
            lemma_immediate_ranges(instruction);
        }
        let imm = (get_bits(instruction, 31, 32) << 20)
            | (get_bits(instruction, 12, 20) << 12)
            | (get_bits(instruction, 20, 21) << 11)
            | (get_bits(instruction, 21, 31) << 1);
        Self { rd: get_bits(instruction, 7, 12) as usize, imm }
    }
}

/// The three register fields of any word are below 32.
pub proof fn lemma_register_fields(w: u32)
    ensures
        rd_of(w) < 32,
        rs1_of(w) < 32,
        rs2_of(w) < 32,
{
    assert(field(w, 7, 12) < 32 && field(w, 15, 20) < 32 && field(w, 20, 25) < 32)
        by (bit_vector);
}

impl Instruction {
    /// Every register index among the operands names one of the 32
    /// registers.
    pub open spec fn wf(&self) -> bool {
        match *self {
            Instruction::Add(a)
            | Instruction::Sub(a)
            | Instruction::Sll(a)
            | Instruction::Slt(a)
            | Instruction::Sltu(a)
            | Instruction::Xor(a)
            | Instruction::Srl(a)
            | Instruction::Sra(a)
            | Instruction::Or(a)
            | Instruction::And(a) => a.wf(),
            Instruction::Jalr(a)
            | Instruction::Addi(a)
            | Instruction::Slli(a)
            | Instruction::Slti(a)
            | Instruction::Sltiu(a)
            | Instruction::Xori(a)
            | Instruction::Srli(a)
            | Instruction::Srai(a)
            | Instruction::Ori(a)
            | Instruction::Andi(a)
            | Instruction::Lb(a)
            | Instruction::Lh(a)
            | Instruction::Lw(a)
            | Instruction::Lbu(a)
            | Instruction::Lhu(a)
            | Instruction::Csrrw(a)
            | Instruction::Csrrs(a)
            | Instruction::Csrrc(a)
            | Instruction::Csrrwi(a)
            | Instruction::Csrrsi(a)
            | Instruction::Csrrci(a) => a.wf(),
            Instruction::Sb(a) | Instruction::Sh(a) | Instruction::Sw(a) => a.wf(),
            Instruction::Beq(a)
            | Instruction::Bne(a)
            | Instruction::Blt(a)
            | Instruction::Bge(a)
            | Instruction::Bltu(a)
            | Instruction::Bgeu(a) => a.wf(),
            Instruction::Jal(a) => a.wf(),
            Instruction::Lui(a) | Instruction::Auipc(a) => a.wf(),
        }
    }
}

/// What a word with the register-register opcode decodes to.
pub open spec fn decode_op(w: u32) -> Result<Instruction, Exception> {
    let f3 = funct3_of(w);
    let f7 = funct7_of(w);
    let a = RType::of(w);
    if f3 == 0b000 {
        if f7 == 0b0000000 {
            Ok(Instruction::Add(a))
        } else if f7 == 0b0100000 {
            Ok(Instruction::Sub(a))
        } else {
            Err(Exception::IllegalInstruction)
        }
    } else if f3 == 0b001 {
        Ok(Instruction::Sll(a))
    } else if f3 == 0b010 {
        Ok(Instruction::Slt(a))
    } else if f3 == 0b011 {
        Ok(Instruction::Sltu(a))
    } else if f3 == 0b100 {
        Ok(Instruction::Xor(a))
    } else if f3 == 0b101 {
        if f7 == 0b0000000 {
            Ok(Instruction::Srl(a))
        } else if f7 == 0b0100000 {
            Ok(Instruction::Sra(a))
        } else {
            Err(Exception::IllegalInstruction)
        }
    } else if f3 == 0b110 {
        Ok(Instruction::Or(a))
    } else {
        Ok(Instruction::And(a))
    }
}

/// What a word with the register-immediate opcode decodes to.
pub open spec fn decode_op_imm(w: u32) -> Result<Instruction, Exception> {
    let f3 = funct3_of(w);
    let f7 = funct7_of(w);
    let a = IType::of(w);
    if f3 == 0b000 {
        Ok(Instruction::Addi(a))
    } else if f3 == 0b001 {
        Ok(Instruction::Slli(a))
    } else if f3 == 0b010 {
        Ok(Instruction::Slti(a))
    } else if f3 == 0b011 {
        Ok(Instruction::Sltiu(a))
    } else if f3 == 0b100 {
        Ok(Instruction::Xori(a))
    } else if f3 == 0b101 {
        if f7 == 0b0000000 {
            Ok(Instruction::Srli(a))
        } else if f7 == 0b0100000 {
            Ok(Instruction::Srai(a))
        } else {
            Err(Exception::IllegalInstruction)
        }
    } else if f3 == 0b110 {
        Ok(Instruction::Ori(a))
    } else {
        Ok(Instruction::Andi(a))
    }
}

/// What a word with the load opcode decodes to.
pub open spec fn decode_load(w: u32) -> Result<Instruction, Exception> {
    let f3 = funct3_of(w);
    let a = IType::of(w);
    if f3 == 0b000 {
        Ok(Instruction::Lb(a))
    } else if f3 == 0b001 {
        Ok(Instruction::Lh(a))
    } else if f3 == 0b010 {
        Ok(Instruction::Lw(a))
    } else if f3 == 0b100 {
        Ok(Instruction::Lbu(a))
    } else if f3 == 0b101 {
        Ok(Instruction::Lhu(a))
    } else {
        Err(Exception::IllegalInstruction)
    }
}

/// What a word with the system opcode decodes to.
pub open spec fn decode_system(w: u32) -> Result<Instruction, Exception> {
    let f3 = funct3_of(w);
    let a = IType::of(w);
    if f3 == 0b001 {
        Ok(Instruction::Csrrw(a))
    } else if f3 == 0b010 {
        Ok(Instruction::Csrrs(a))
    } else if f3 == 0b011 {
        Ok(Instruction::Csrrc(a))
    } else if f3 == 0b101 {
        Ok(Instruction::Csrrwi(a))
    } else if f3 == 0b110 {
        Ok(Instruction::Csrrsi(a))
    } else if f3 == 0b111 {
        Ok(Instruction::Csrrci(a))
    } else {
        Err(Exception::IllegalInstruction)
    }
}

/// What a word with the store opcode decodes to.
pub open spec fn decode_store(w: u32) -> Result<Instruction, Exception> {
    let f3 = funct3_of(w);
    let a = SType::of(w);
    if f3 == 0b000 {
        Ok(Instruction::Sb(a))
    } else if f3 == 0b001 {
        Ok(Instruction::Sh(a))
    } else if f3 == 0b010 {
        Ok(Instruction::Sw(a))
    } else {
        Err(Exception::IllegalInstruction)
    }
}

/// What a word with the branch opcode decodes to.
pub open spec fn decode_branch(w: u32) -> Result<Instruction, Exception> {
    let f3 = funct3_of(w);
    let a = BType::of(w);
    if f3 == 0b000 {
        Ok(Instruction::Beq(a))
    } else if f3 == 0b001 {
        Ok(Instruction::Bne(a))
    } else if f3 == 0b100 {
        Ok(Instruction::Blt(a))
    } else if f3 == 0b101 {
        Ok(Instruction::Bge(a))
    } else if f3 == 0b110 {
        Ok(Instruction::Bltu(a))
    } else if f3 == 0b111 {
        Ok(Instruction::Bgeu(a))
    } else {
        Err(Exception::IllegalInstruction)
    }
}

/// What a word with the indirect-jump opcode decodes to: the jump, unless
/// the function code is not zero or the immediate is not a multiple of four.
pub open spec fn decode_jalr(w: u32) -> Result<Instruction, Exception> {
    if funct3_of(w) != 0b000 {
        Err(Exception::IllegalInstruction)
    } else if i_imm_of(w) % 4 != 0 {
        Err(Exception::InstructionAddressMisaligned)
    } else {
        Ok(Instruction::Jalr(IType::of(w)))
    }
}

/// What a word decodes to: the instruction that its opcode and function
/// codes select, with the operands of its encoding class, or the exception
/// that rejects it.
pub open spec fn decode_spec(w: u32) -> Result<Instruction, Exception> {
    let opcode = opcode_of(w);
    if opcode == 0b0110011 {
        decode_op(w)
    } else if opcode == 0b1100111 {
        decode_jalr(w)
    } else if opcode == 0b0010011 {
        decode_op_imm(w)
    } else if opcode == 0b0000011 {
        decode_load(w)
    } else if opcode == 0b1110011 {
        decode_system(w)
    } else if opcode == 0b0100011 {
        decode_store(w)
    } else if opcode == 0b1100011 {
        decode_branch(w)
    } else if opcode == 0b1101111 {
        Ok(Instruction::Jal(JType::of(w)))
    } else if opcode == 0b0110111 {
        Ok(Instruction::Lui(UType::of(w)))
    } else if opcode == 0b0010111 {
        Ok(Instruction::Auipc(UType::of(w)))
    } else {
        Err(Exception::IllegalInstruction)
    }
}

/// Decodes an instruction word.
///
/// The result is exactly `decode_spec` of the word; a decoded instruction
/// has all its register indices below 32.
pub fn decode(instruction: u32) -> (r: Result<Instruction, Exception>)
    ensures
        r == decode_spec(instruction),
        r matches Ok(i) ==> i.wf(),
{
    let opcode = get_bits(instruction, 0, 7);
    let funct3 = get_bits(instruction, 12, 15);
    let funct7 = get_bits(instruction, 25, 32);
    assert(field(instruction, 12, 15) < 8) by (bit_vector);
    let decoded = match opcode {
        // R-Type
        0b0110011 => match funct3 {
            0b000 => match funct7 {
                0b0000000 => Instruction::Add(RType::new(instruction)),
                0b0100000 => Instruction::Sub(RType::new(instruction)),
                _ => return Err(Exception::IllegalInstruction),
            },
            0b001 => Instruction::Sll(RType::new(instruction)),
            0b010 => Instruction::Slt(RType::new(instruction)),
            0b011 => Instruction::Sltu(RType::new(instruction)),
            0b100 => Instruction::Xor(RType::new(instruction)),
            0b101 => match funct7 {
                0b0000000 => Instruction::Srl(RType::new(instruction)),
                0b0100000 => Instruction::Sra(RType::new(instruction)),
                _ => return Err(Exception::IllegalInstruction),
            },
            0b110 => Instruction::Or(RType::new(instruction)),
            _ => Instruction::And(RType::new(instruction)),
        },
        // I-Type
        0b1100111 => {
            if funct3 != 0b000 {
                return Err(Exception::IllegalInstruction);
            }
            let decoded = IType::new(instruction);
            if decoded.imm % 4 != 0 {
                return Err(Exception::InstructionAddressMisaligned);
            }
            Instruction::Jalr(decoded)
        },
        0b0010011 => match funct3 {
            0b000 => Instruction::Addi(IType::new(instruction)),
            0b001 => Instruction::Slli(IType::new(instruction)),
            0b010 => Instruction::Slti(IType::new(instruction)),
            0b011 => Instruction::Sltiu(IType::new(instruction)),
            0b100 => Instruction::Xori(IType::new(instruction)),
            0b101 => match funct7 {
                0b0000000 => Instruction::Srli(IType::new(instruction)),
                0b0100000 => Instruction::Srai(IType::new(instruction)),
                _ => return Err(Exception::IllegalInstruction),
            },
            0b110 => Instruction::Ori(IType::new(instruction)),
            _ => Instruction::Andi(IType::new(instruction)),
        },
        0b0000011 => match funct3 {
            0b000 => Instruction::Lb(IType::new(instruction)),
            0b001 => Instruction::Lh(IType::new(instruction)),
            0b010 => Instruction::Lw(IType::new(instruction)),
            0b100 => Instruction::Lbu(IType::new(instruction)),
            0b101 => Instruction::Lhu(IType::new(instruction)),
            _ => return Err(Exception::IllegalInstruction),
        },
        0b1110011 => match funct3 {
            0b001 => Instruction::Csrrw(IType::new(instruction)),
            0b010 => Instruction::Csrrs(IType::new(instruction)),
            0b011 => Instruction::Csrrc(IType::new(instruction)),
            0b101 => Instruction::Csrrwi(IType::new(instruction)),
            0b110 => Instruction::Csrrsi(IType::new(instruction)),
            0b111 => Instruction::Csrrci(IType::new(instruction)),
            _ => return Err(Exception::IllegalInstruction),
        },
        // S-Type
        0b0100011 => match funct3 {
            0b000 => Instruction::Sb(SType::new(instruction)),
            0b001 => Instruction::Sh(SType::new(instruction)),
            0b010 => Instruction::Sw(SType::new(instruction)),
            _ => return Err(Exception::IllegalInstruction),
        },
        // B-Type
        0b1100011 => match funct3 {
            0b000 => Instruction::Beq(BType::new(instruction)),
            0b001 => Instruction::Bne(BType::new(instruction)),
            0b100 => Instruction::Blt(BType::new(instruction)),
            0b101 => Instruction::Bge(BType::new(instruction)),
            0b110 => Instruction::Bltu(BType::new(instruction)),
            0b111 => Instruction::Bgeu(BType::new(instruction)),
            _ => return Err(Exception::IllegalInstruction),
        },
        // J-Type
        0b1101111 => Instruction::Jal(JType::new(instruction)),
        // U-Type
        0b0110111 => Instruction::Lui(UType::new(instruction)),
        0b0010111 => Instruction::Auipc(UType::new(instruction)),
        _ => return Err(Exception::IllegalInstruction),
    };
    Ok(decoded)
}

/// The immediates of any word lie in the range of their encoding class: 12
/// bits for I-type and S-type; 13 bits with a zero low bit for B-type; the
/// upper 20 bits for U-type; 21 bits with a zero low bit for J-type.
pub proof fn lemma_immediate_ranges(w: u32)
    ensures
        i_imm_of(w) < 0x1000,
        s_imm_of(w) < 0x1000,
        b_imm_of(w) < 0x2000,
        b_imm_of(w) % 2 == 0,
        u_imm_of(w) & 0xfff == 0,
        j_imm_of(w) < 0x20_0000,
        j_imm_of(w) % 2 == 0,
{
    assert(field(w, 20, 32) < 0x1000) by (bit_vector);
    assert(((field(w, 25, 32) << 5) | field(w, 7, 12)) < 0x1000) by (bit_vector);
    assert({
        let v = (field(w, 31, 32) << 12)
            | (field(w, 7, 8) << 11)
            | (field(w, 25, 31) << 5)
            | (field(w, 8, 12) << 1);
        v < 0x2000 && v % 2 == 0
    }) by (bit_vector);
    assert((field(w, 12, 32) << 12) & 0xfff == 0) by (bit_vector);
    assert({
        let v = (field(w, 31, 32) << 20)
            | (field(w, 12, 20) << 12)
            | (field(w, 20, 21) << 11)
            | (field(w, 21, 31) << 1);
        v < 0x20_0000 && v % 2 == 0
    }) by (bit_vector);
}

} // verus!
