//! The execution engine: the architectural state and the effect of each
//! instruction on it.

use crate::bits::{
    shift_right_arithmetic, sign_extend_12, sign_extend_13, sign_extend_16, sign_extend_21,
    sign_extend_8, signed_lt,
};
use crate::csr::{permitted, read_only, Csr, CSR_NUM};
use crate::decode::{decode, decode_spec, BType, IType, Instruction, JType, RType, SType, UType};
use crate::exception::Exception;
use crate::memory::{
    halfword_at, halfword_bytes, inst_at, lemma_inst_round_trip, same_contents, same_shape, stored,
    word_at, word_bytes, Memory,
};
use vstd::prelude::*;

verus! {

/// Privilege level.
#[derive(Clone, Copy, Debug, PartialEq, Eq, Structural)]
pub enum Mode {
    User,
    Supervisor,
    Machine,
}

impl Mode {
    /// The numeric code of the mode: 0 for user, 1 for supervisor, 3 for
    /// machine.
    pub open spec fn spec_code(self) -> u32 {
        match self {
            Mode::User => 0b00,
            Mode::Supervisor => 0b01,
            Mode::Machine => 0b11,
        }
    }

    /// The numeric code of the mode.
    pub fn code(self) -> (r: u32)
        ensures
            r == self.spec_code(),
    {
        match self {
            Mode::User => 0b00,
            Mode::Supervisor => 0b01,
            Mode::Machine => 0b11,
        }
    }
}

/// What a read of register `idx` finds in a register file: zero at index 0,
/// the entry elsewhere.
pub open spec fn read_reg_seq(regs: Seq<u32>, idx: usize) -> u32 {
    if idx == 0 {
        0
    } else {
        regs[idx as int]
    }
}

/// The register file after a write of `val` to register `idx`: unchanged at
/// index 0, with the entry replaced elsewhere.
pub open spec fn write_reg_seq(regs: Seq<u32>, idx: usize, val: u32) -> Seq<u32> {
    if idx == 0 {
        regs
    } else {
        regs.update(idx as int, val)
    }
}

/// One when the condition holds, zero when not.
pub open spec fn flag(condition: bool) -> u32 {
    if condition {
        1
    } else {
        0
    }
}

/// A processor: the program counter, the 32 general registers, the control
/// and status registers, a memory, the privilege mode, and the mark that an
/// instruction has redirected the program counter.
pub struct Processor<M: Memory> {
    pub pc: u32,
    pub regs: [u32; 32],
    pub csr: Csr,
    pub mem: M,
    pub mode: Mode,
    /// Set by a jump or a taken branch; while it is set the program counter
    /// is not advanced.
    pub has_jumped: bool,
}

// The meaning of each instruction, as functions of the state before it.
impl<M: Memory> Processor<M> {
    /// What a read of register `idx` finds.
    pub open spec fn reg(&self, idx: usize) -> u32 {
        read_reg_seq(self.regs@, idx)
    }

    /// Whether `width` bytes at `addr` lie inside the memory. The processor
    /// goes by the memory's length for every fetch, load and store, also
    /// where the memory would serve an access beyond it.
    pub open spec fn in_memory(&self, addr: u32, width: int) -> bool {
        addr + width <= self.mem.spec_len()
    }

    /// The address that a load or store forms from a base register and a
    /// 12-bit offset.
    pub open spec fn data_addr(&self, rs1: usize, imm: u16) -> u32 {
        self.reg(rs1).wrapping_add(sign_extend_12(imm))
    }

    /// The target of an indirect jump: base plus offset with bit 0 cleared.
    pub open spec fn jalr_target(&self, a: IType) -> u32 {
        self.reg(a.rs1).wrapping_add(sign_extend_12(a.imm)) & 0xffff_fffe
    }

    /// The target of a jump: the program counter plus the offset.
    pub open spec fn jal_target(&self, a: JType) -> u32 {
        self.pc.wrapping_add(sign_extend_21(a.imm))
    }

    /// The target of a branch: the program counter plus the offset.
    pub open spec fn branch_target(&self, a: BType) -> u32 {
        self.pc.wrapping_add(sign_extend_13(a.imm))
    }

    /// Whether the instruction is a branch whose condition holds.
    pub open spec fn branch_taken(&self, inst: Instruction) -> bool {
        match inst {
            Instruction::Beq(a) => self.reg(a.rs1) == self.reg(a.rs2),
            Instruction::Bne(a) => self.reg(a.rs1) != self.reg(a.rs2),
            Instruction::Blt(a) => signed_lt(self.reg(a.rs1), self.reg(a.rs2)),
            Instruction::Bge(a) => !signed_lt(self.reg(a.rs1), self.reg(a.rs2)),
            Instruction::Bltu(a) => self.reg(a.rs1) < self.reg(a.rs2),
            Instruction::Bgeu(a) => self.reg(a.rs1) >= self.reg(a.rs2),
            _ => false,
        }
    }

    /// The exception that the instruction raises in this state, if any.
    pub open spec fn trap_of(&self, inst: Instruction) -> Option<Exception> {
        match inst {
            Instruction::Jalr(a) => if self.jalr_target(a) % 4 != 0 {
                Some(Exception::InstructionAddressMisaligned)
            } else {
                None
            },
            Instruction::Jal(a) => if self.jal_target(a) % 4 != 0 {
                Some(Exception::InstructionAddressMisaligned)
            } else {
                None
            },
            Instruction::Beq(a)
            | Instruction::Bne(a)
            | Instruction::Blt(a)
            | Instruction::Bge(a)
            | Instruction::Bltu(a)
            | Instruction::Bgeu(a) => if self.branch_taken(inst) && sign_extend_13(a.imm) % 4
                != 0 {
                Some(Exception::InstructionAddressMisaligned)
            } else {
                None
            },
            Instruction::Lb(a) | Instruction::Lbu(a) => if self.in_memory(
                self.data_addr(a.rs1, a.imm),
                1,
            ) {
                None
            } else {
                Some(Exception::LoadAccessFault)
            },
            Instruction::Lh(a) | Instruction::Lhu(a) => if self.in_memory(
                self.data_addr(a.rs1, a.imm),
                2,
            ) {
                None
            } else {
                Some(Exception::LoadAccessFault)
            },
            Instruction::Lw(a) => if self.in_memory(self.data_addr(a.rs1, a.imm), 4) {
                None
            } else {
                Some(Exception::LoadAccessFault)
            },
            Instruction::Sb(a) => if self.in_memory(self.data_addr(a.rs1, a.imm), 1) {
                None
            } else {
                Some(Exception::StoreAccessFault)
            },
            Instruction::Sh(a) => if self.in_memory(self.data_addr(a.rs1, a.imm), 2) {
                None
            } else {
                Some(Exception::StoreAccessFault)
            },
            Instruction::Sw(a) => if self.in_memory(self.data_addr(a.rs1, a.imm), 4) {
                None
            } else {
                Some(Exception::StoreAccessFault)
            },
            Instruction::Csrrw(a)
            | Instruction::Csrrs(a)
            | Instruction::Csrrc(a)
            | Instruction::Csrrwi(a)
            | Instruction::Csrrsi(a)
            | Instruction::Csrrci(a) => if permitted(a.imm as usize, self.mode) {
                None
            } else {
                Some(Exception::IllegalInstruction)
            },
            _ => None,
        }
    }

    /// The register that the instruction writes and the value it writes
    /// there, if it completes and writes one.
    pub open spec fn reg_write(&self, inst: Instruction) -> Option<(usize, u32)> {
        match inst {
            Instruction::Add(a) => Some((a.rd, self.reg(a.rs1).wrapping_add(self.reg(a.rs2)))),
            Instruction::Sub(a) => Some((a.rd, self.reg(a.rs1).wrapping_sub(self.reg(a.rs2)))),
            Instruction::Sll(a) => Some((a.rd, self.reg(a.rs1) << (self.reg(a.rs2) & 0x1f))),
            Instruction::Slt(a) => Some(
                (a.rd, flag(signed_lt(self.reg(a.rs1), self.reg(a.rs2)))),
            ),
            Instruction::Sltu(a) => Some((a.rd, flag(self.reg(a.rs1) < self.reg(a.rs2)))),
            Instruction::Xor(a) => Some((a.rd, self.reg(a.rs1) ^ self.reg(a.rs2))),
            Instruction::Srl(a) => Some((a.rd, self.reg(a.rs1) >> (self.reg(a.rs2) & 0x1f))),
            Instruction::Sra(a) => Some(
                (a.rd, shift_right_arithmetic(self.reg(a.rs1), self.reg(a.rs2) & 0x1f)),
            ),
            Instruction::Or(a) => Some((a.rd, self.reg(a.rs1) | self.reg(a.rs2))),
            Instruction::And(a) => Some((a.rd, self.reg(a.rs1) & self.reg(a.rs2))),
            Instruction::Jalr(a) => Some((a.rd, self.pc.wrapping_add(4))),
            Instruction::Addi(a) => Some(
                (a.rd, self.reg(a.rs1).wrapping_add(sign_extend_12(a.imm))),
            ),
            Instruction::Slli(a) => Some((a.rd, self.reg(a.rs1) << ((a.imm as u32) & 0x1f))),
            Instruction::Slti(a) => Some(
                (a.rd, flag(signed_lt(self.reg(a.rs1), sign_extend_12(a.imm)))),
            ),
            Instruction::Sltiu(a) => Some((a.rd, flag(self.reg(a.rs1) < sign_extend_12(a.imm)))),
            Instruction::Xori(a) => Some((a.rd, self.reg(a.rs1) ^ sign_extend_12(a.imm))),
            Instruction::Srli(a) => Some((a.rd, self.reg(a.rs1) >> ((a.imm as u32) & 0x1f))),
            Instruction::Srai(a) => Some(
                (a.rd, shift_right_arithmetic(self.reg(a.rs1), (a.imm as u32) & 0x1f)),
            ),
            Instruction::Ori(a) => Some((a.rd, self.reg(a.rs1) | sign_extend_12(a.imm))),
            Instruction::Andi(a) => Some((a.rd, self.reg(a.rs1) & sign_extend_12(a.imm))),
            Instruction::Lb(a) => Some(
                (a.rd, sign_extend_8(self.mem.byte_at(self.data_addr(a.rs1, a.imm) as int))),
            ),
            Instruction::Lh(a) => Some(
                (a.rd, sign_extend_16(halfword_at(self.mem, self.data_addr(a.rs1, a.imm) as int))),
            ),
            Instruction::Lw(a) => Some(
                (a.rd, word_at(self.mem, self.data_addr(a.rs1, a.imm) as int)),
            ),
            Instruction::Lbu(a) => Some(
                (a.rd, self.mem.byte_at(self.data_addr(a.rs1, a.imm) as int) as u32),
            ),
            Instruction::Lhu(a) => Some(
                (a.rd, halfword_at(self.mem, self.data_addr(a.rs1, a.imm) as int) as u32),
            ),
            Instruction::Csrrw(a)
            | Instruction::Csrrs(a)
            | Instruction::Csrrc(a)
            | Instruction::Csrrwi(a)
            | Instruction::Csrrsi(a)
            | Instruction::Csrrci(a) => Some((a.rd, self.csr@[a.imm as int])),
            Instruction::Jal(a) => Some((a.rd, self.pc.wrapping_add(4))),
            Instruction::Lui(a) => Some((a.rd, a.imm)),
            Instruction::Auipc(a) => Some((a.rd, self.pc.wrapping_add(a.imm))),
            _ => None,
        }
    }

    /// The general registers after the instruction, where it completes.
    pub open spec fn regs_after(&self, inst: Instruction) -> Seq<u32> {
        match self.reg_write(inst) {
            Some((rd, val)) => write_reg_seq(self.regs@, rd, val),
            None => self.regs@,
        }
    }

    /// The value that a CSR instruction writes to its register. The source
    /// register is read after the destination register has received the old
    /// value of the CSR.
    pub open spec fn csr_value(&self, inst: Instruction) -> Option<u32> {
        match inst {
            Instruction::Csrrw(a) => Some(read_reg_seq(self.regs_after(inst), a.rs1)),
            Instruction::Csrrs(a) => Some(
                self.csr@[a.imm as int] | read_reg_seq(self.regs_after(inst), a.rs1),
            ),
            Instruction::Csrrc(a) => Some(
                self.csr@[a.imm as int] & !read_reg_seq(self.regs_after(inst), a.rs1),
            ),
            Instruction::Csrrwi(a) => Some(a.rs1 as u32),
            Instruction::Csrrsi(a) => Some(self.csr@[a.imm as int] | (a.rs1 as u32)),
            Instruction::Csrrci(a) => Some(self.csr@[a.imm as int] & !(a.rs1 as u32)),
            _ => None,
        }
    }

    /// The CSR address that the instruction names, if it is a CSR
    /// instruction.
    pub open spec fn csr_addr(inst: Instruction) -> Option<usize> {
        match inst {
            Instruction::Csrrw(a)
            | Instruction::Csrrs(a)
            | Instruction::Csrrc(a)
            | Instruction::Csrrwi(a)
            | Instruction::Csrrsi(a)
            | Instruction::Csrrci(a) => Some(a.imm as usize),
            _ => None,
        }
    }

    /// The control and status registers after the instruction, where it
    /// completes: a CSR instruction replaces the register it names unless
    /// that register is read-only.
    pub open spec fn csrs_after(&self, inst: Instruction) -> Seq<u32> {
        match (Self::csr_addr(inst), self.csr_value(inst)) {
            (Some(addr), Some(val)) => if read_only(addr) {
                self.csr@
            } else {
                self.csr@.update(addr as int, val)
            },
            _ => self.csr@,
        }
    }

    /// The address and the bytes that the instruction stores, if it is a
    /// store.
    pub open spec fn store_of(&self, inst: Instruction) -> Option<(int, Seq<u8>)> {
        match inst {
            Instruction::Sb(a) => Some(
                (self.data_addr(a.rs1, a.imm) as int, seq![self.reg(a.rs2) as u8]),
            ),
            Instruction::Sh(a) => Some(
                (self.data_addr(a.rs1, a.imm) as int, halfword_bytes(self.reg(a.rs2) as u16)),
            ),
            Instruction::Sw(a) => Some(
                (self.data_addr(a.rs1, a.imm) as int, word_bytes(self.reg(a.rs2))),
            ),
            _ => None,
        }
    }

    /// Whether `post` holds the memory that the instruction leaves: this
    /// memory after the store, for a store; this memory, for any other.
    pub open spec fn memory_after(&self, inst: Instruction, post: &Self) -> bool {
        match self.store_of(inst) {
            Some((addr, bytes)) => stored(self.mem, post.mem, addr, bytes),
            None => post.mem == self.mem,
        }
    }

    /// Where the instruction sends the program counter, if it is a jump or a
    /// taken branch.
    pub open spec fn jump_of(&self, inst: Instruction) -> Option<u32> {
        match inst {
            Instruction::Jalr(a) => Some(self.jalr_target(a)),
            Instruction::Jal(a) => Some(self.jal_target(a)),
            Instruction::Beq(a)
            | Instruction::Bne(a)
            | Instruction::Blt(a)
            | Instruction::Bge(a)
            | Instruction::Bltu(a)
            | Instruction::Bgeu(a) => if self.branch_taken(inst) {
                Some(self.branch_target(a))
            } else {
                None
            },
            _ => None,
        }
    }

    /// `post` differs from this state in nothing but, possibly, the
    /// registers, the program counter and the jump mark.
    pub open spec fn same_system(&self, post: &Self) -> bool {
        &&& post.csr@ == self.csr@
        &&& post.mem == self.mem
        &&& post.mode == self.mode
    }

    /// `post` holds what this state holds, but for the jump mark.
    pub open spec fn same_state(&self, post: &Self) -> bool {
        &&& post.pc == self.pc
        &&& post.regs@ == self.regs@
        &&& self.same_system(post)
    }

    /// `post` is this state with nothing changed.
    pub open spec fn unchanged(&self, post: &Self) -> bool {
        self.same_state(post) && post.has_jumped == self.has_jumped
    }

    /// `post` and `r` are what executing `inst` in this state gives. An
    /// instruction that raises an exception changes nothing. One that
    /// completes leaves the registers, the control and status registers and
    /// the memory as its meaning says; a jump or taken branch sets the
    /// program counter and the jump mark, any other leaves both.
    pub open spec fn executed(
        &self,
        inst: Instruction,
        post: &Self,
        r: Result<(), Exception>,
    ) -> bool {
        match self.trap_of(inst) {
            Some(e) => r == Err::<(), Exception>(e) && self.unchanged(post),
            None => {
                &&& r == Ok::<(), Exception>(())
                &&& post.regs@ == self.regs_after(inst)
                &&& post.csr@ == self.csrs_after(inst)
                &&& self.memory_after(inst, post)
                &&& post.mode == self.mode
                &&& match self.jump_of(inst) {
                    Some(target) => post.pc == target && post.has_jumped,
                    None => post.pc == self.pc && post.has_jumped == self.has_jumped,
                }
            },
        }
    }

    /// The instruction word at the program counter.
    pub open spec fn fetched(&self) -> u32 {
        inst_at(self.mem, self.pc as int)
    }

    /// What a tick in this state executes: the instruction that the word at
    /// the program counter decodes to, `InstructionAccessFault` where that
    /// word does not lie inside the memory, or the decoder's exception.
    pub open spec fn current(&self) -> Result<Instruction, Exception> {
        if self.in_memory(self.pc, 4) {
            decode_spec(self.fetched())
        } else {
            Err(Exception::InstructionAccessFault)
        }
    }

    /// The exception with which a tick in this state fails, if it fails.
    pub open spec fn tick_trap(&self) -> Option<Exception> {
        match self.current() {
            Err(e) => Some(e),
            Ok(inst) => self.trap_of(inst),
        }
    }

    /// `post` and `r` are what one tick in this state gives. A tick that
    /// fails returns its exception and changes nothing. A tick that
    /// completes leaves what the instruction leaves, with the program
    /// counter at the target of a jump or taken branch and four further on,
    /// wrapping, after any other instruction. The jump mark is clear after
    /// every tick.
    pub open spec fn ticked(&self, post: &Self, r: Result<(), Exception>) -> bool {
        &&& !post.has_jumped
        &&& match self.current() {
            Err(e) => r == Err::<(), Exception>(e) && self.same_state(post),
            Ok(inst) => match self.trap_of(inst) {
                Some(e) => r == Err::<(), Exception>(e) && self.same_state(post),
                None => {
                    &&& r == Ok::<(), Exception>(())
                    &&& post.regs@ == self.regs_after(inst)
                    &&& post.csr@ == self.csrs_after(inst)
                    &&& self.memory_after(inst, post)
                    &&& post.mode == self.mode
                    &&& post.pc == match self.jump_of(inst) {
                        Some(target) => target,
                        None => self.pc.wrapping_add(4),
                    }
                },
            },
        }
    }
}

// The processor's operations.
impl<M: Memory> Processor<M> {
    /// A processor over `memory` with every register zero, the program
    /// counter at zero, and machine mode.
    pub fn new(memory: M) -> (r: Self)
        ensures
            r.pc == 0,
            r.regs@ == Seq::new(32, |i: int| 0u32),
            r.csr@ == Seq::new(CSR_NUM as nat, |i: int| 0u32),
            r.mem == memory,
            r.mode == Mode::Machine,
            !r.has_jumped,
    {
        let r = Self {
            pc: 0,
            regs: [0; 32],
            csr: Csr::default(),
            mem: memory,
            mode: Mode::Machine,
            has_jumped: false,
        };
        assert(r.regs@ =~= Seq::new(32, |i: int| 0u32));
        assert(r.csr@ =~= Seq::new(CSR_NUM as nat, |i: int| 0u32));
        r
    }

    /// Set program counter to start instruction execution. The address
    /// must be a multiple of four.
    pub fn set_pc(&mut self, pc: u32)
        requires
            pc % 4 == 0,
        ensures
            final(self).pc == pc,
            final(self).regs@ == old(self).regs@,
            final(self).has_jumped == old(self).has_jumped,
            old(self).same_system(final(self)),
    {
        self.pc = pc;
    }

    /// The privilege mode.
    pub fn mode(&self) -> (r: Mode)
        ensures
            r == self.mode,
    {
        self.mode
    }

    /// Read the register value at index `idx`. Register 0 reads as zero.
    pub fn read_reg(&self, idx: usize) -> (r: u32)
        requires
            idx < 32,
        ensures
            r == self.reg(idx),
            idx == 0 ==> r == 0,
    {
        if idx == 0 {
            0
        } else {
            self.regs[idx]
        }
    }

    /// Write value to the register at index `idx`. A write to register 0 is
    /// discarded.
    pub fn write_reg(&mut self, idx: usize, val: u32)
        requires
            idx < 32,
        ensures
            final(self).regs@ == write_reg_seq(old(self).regs@, idx, val),
            idx == 0 ==> final(self).regs@ == old(self).regs@,
            final(self).pc == old(self).pc,
            final(self).has_jumped == old(self).has_jumped,
            old(self).same_system(final(self)),
    {
        if idx != 0 {
            self.regs[idx] = val;
        }
    }

    /// Read the CSR value at `addr` in the current mode.
    /// `addr` is `u16` because immediate of CSR instruction is decoded as `u16`.
    pub fn read_csr(&self, addr: u16) -> (r: Result<u32, Exception>)
        ensures
            r == if permitted(addr as usize, self.mode) {
                Ok::<u32, Exception>(self.csr@[addr as int])
            } else {
                Err(Exception::IllegalInstruction)
            },
    {
        self.csr.read(addr as usize, self.mode)
    }

    /// Write `value` to the CSR at `addr` in the current mode.
    pub fn write_csr(&mut self, addr: u16, value: u32) -> (r: Result<(), Exception>)
        ensures
            r == if permitted(addr as usize, old(self).mode) {
                Ok::<(), Exception>(())
            } else {
                Err(Exception::IllegalInstruction)
            },
            final(self).csr@ == if permitted(addr as usize, old(self).mode) && !read_only(
                addr as usize,
            ) {
                old(self).csr@.update(addr as int, value)
            } else {
                old(self).csr@
            },
            final(self).pc == old(self).pc,
            final(self).regs@ == old(self).regs@,
            final(self).mem == old(self).mem,
            final(self).mode == old(self).mode,
            final(self).has_jumped == old(self).has_jumped,
    {
        self.csr.write(addr as usize, value, self.mode)
    }

    /// Widens a 12-bit immediate to 32 bits by its sign bit.
    pub fn sign_extend(val: u16) -> (r: u32)
        ensures
            r == sign_extend_12(val),
    {
        if val & 0x800 != 0 {
            (val as u32) | 0xfffff000
        } else {
            val as u32
        }
    }

    /// Widens a 13-bit branch offset to 32 bits by its sign bit.
    pub fn sign_extend_branch(val: u16) -> (r: u32)
        ensures
            r == sign_extend_13(val),
    {
        if val & 0x1000 != 0 {
            (val as u32) | 0xffffe000
        } else {
            val as u32
        }
    }

    /// Widens the offset of a jump, 20 encoded bits above a zero bit, to 32
    /// bits by its sign bit.
    pub fn sign_extend_20bit(value: u32) -> (r: u32)
        ensures
            r == sign_extend_21(value),
    {
        if value & 0x100000 != 0 {
            value | 0xffe00000
        } else {
            value
        }
    }

    /// The low five bits of a value: the amount of a shift.
    fn shift_amount(value: u32) -> (r: u32)
        ensures
            r == value & 0x1f,
            r < 32,
    {
        assert(value & 0x1f < 32) by (bit_vector);
        value & 0x1f
    }

    /// Whether `width` bytes at `addr` lie inside the memory. Where they do,
    /// the memory serves the access.
    fn check_access(&self, addr: u32, width: usize) -> (r: bool)
        requires
            width <= 4,
        ensures
            r == self.in_memory(addr, width as int),
            r ==> self.mem.accepts(addr as int, width as int),
    {
        let len = self.mem.len();
        len >= width && addr as usize <= len - width
    }

    /// The address of a load or store: the base register plus the
    /// sign-extended offset.
    fn data_address(&self, rs1: usize, imm: u16) -> (r: u32)
        requires
            rs1 < 32,
        ensures
            r == self.data_addr(rs1, imm),
    {
        let base = self.read_reg(rs1);
        let offset = Self::sign_extend(imm);
        base.wrapping_add(offset)
    }

    /// rd = rs1 + rs2, wrapping.
    pub fn inst_add(&mut self, args: &RType)
        requires
            args.wf(),
        ensures
            old(self).executed(Instruction::Add(*args), final(self), Ok(())),
    {
        let lv = self.read_reg(args.rs1);
        let rv = self.read_reg(args.rs2);
        let v = lv.wrapping_add(rv);
        self.write_reg(args.rd, v);
    }

    /// rd = rs1 - rs2, wrapping.
    pub fn inst_sub(&mut self, args: &RType)
        requires
            args.wf(),
        ensures
            old(self).executed(Instruction::Sub(*args), final(self), Ok(())),
    {
        let lv = self.read_reg(args.rs1);
        let rv = self.read_reg(args.rs2);
        let v = lv.wrapping_sub(rv);
        self.write_reg(args.rd, v);
    }

    /// rd = rs1 shifted left by the low five bits of rs2.
    pub fn inst_sll(&mut self, args: &RType)
        requires
            args.wf(),
        ensures
            old(self).executed(Instruction::Sll(*args), final(self), Ok(())),
    {
        let lv = self.read_reg(args.rs1);
        let rv = self.read_reg(args.rs2);
        let v = lv << Self::shift_amount(rv);
        self.write_reg(args.rd, v);
    }

    /// rd = 1 if rs1 is below rs2 as signed values, else 0.
    pub fn inst_slt(&mut self, args: &RType)
        requires
            args.wf(),
        ensures
            old(self).executed(Instruction::Slt(*args), final(self), Ok(())),
    {
        let lv = self.read_reg(args.rs1);
        let rv = self.read_reg(args.rs2);
        let v: u32 = if (lv as i32) < (rv as i32) {
            1
        } else {
            0
        };
        self.write_reg(args.rd, v);
    }

    /// rd = 1 if rs1 is below rs2 as unsigned values, else 0.
    pub fn inst_sltu(&mut self, args: &RType)
        requires
            args.wf(),
        ensures
            old(self).executed(Instruction::Sltu(*args), final(self), Ok(())),
    {
        let lv = self.read_reg(args.rs1);
        let rv = self.read_reg(args.rs2);
        let v: u32 = if lv < rv {
            1
        } else {
            0
        };
        self.write_reg(args.rd, v);
    }

    /// rd = rs1 ^ rs2.
    pub fn inst_xor(&mut self, args: &RType)
        requires
            args.wf(),
        ensures
            old(self).executed(Instruction::Xor(*args), final(self), Ok(())),
    {
        let lv = self.read_reg(args.rs1);
        let rv = self.read_reg(args.rs2);
        let v = lv ^ rv;
        self.write_reg(args.rd, v);
    }

    /// rd = rs1 shifted right by the low five bits of rs2, zero filled.
    pub fn inst_srl(&mut self, args: &RType)
        requires
            args.wf(),
        ensures
            old(self).executed(Instruction::Srl(*args), final(self), Ok(())),
    {
        let lv = self.read_reg(args.rs1);
        let rv = self.read_reg(args.rs2);
        let v = lv >> Self::shift_amount(rv);
        self.write_reg(args.rd, v);
    }

    /// rd = rs1 shifted right by the low five bits of rs2, sign filled.
    pub fn inst_sra(&mut self, args: &RType)
        requires
            args.wf(),
        ensures
            old(self).executed(Instruction::Sra(*args), final(self), Ok(())),
    {
        let lv = self.read_reg(args.rs1);
        let rv = self.read_reg(args.rs2);
        let v = ((lv as i32) >> Self::shift_amount(rv)) as u32;
        self.write_reg(args.rd, v);
    }

    /// rd = rs1 | rs2.
    pub fn inst_or(&mut self, args: &RType)
        requires
            args.wf(),
        ensures
            old(self).executed(Instruction::Or(*args), final(self), Ok(())),
    {
        let lv = self.read_reg(args.rs1);
        let rv = self.read_reg(args.rs2);
        let v = lv | rv;
        self.write_reg(args.rd, v);
    }

    /// rd = rs1 & rs2.
    pub fn inst_and(&mut self, args: &RType)
        requires
            args.wf(),
        ensures
            old(self).executed(Instruction::And(*args), final(self), Ok(())),
    {
        let lv = self.read_reg(args.rs1);
        let rv = self.read_reg(args.rs2);
        let v = lv & rv;
        self.write_reg(args.rd, v);
    }

    /// Jump to rs1 plus the offset, with bit 0 cleared, and link: rd
    /// receives the address of the next instruction. A target that is not a
    /// multiple of four raises `InstructionAddressMisaligned`.
    pub fn inst_jalr(&mut self, args: &IType) -> (r: Result<(), Exception>)
        requires
            args.wf(),
        ensures
            old(self).executed(Instruction::Jalr(*args), final(self), r),
    {
        let lv = self.read_reg(args.rs1);
        let rv = Self::sign_extend(args.imm);
        let new_pc = lv.wrapping_add(rv) & 0xffff_fffe;
        if new_pc % 4 != 0 {
            return Err(Exception::InstructionAddressMisaligned);
        }
        self.write_reg(args.rd, self.pc.wrapping_add(4));
        self.set_pc(new_pc);
        self.has_jumped = true;
        Ok(())
    }

    /// rd = rs1 + the sign-extended immediate, wrapping.
    pub fn inst_addi(&mut self, args: &IType)
        requires
            args.wf(),
        ensures
            old(self).executed(Instruction::Addi(*args), final(self), Ok(())),
    {
        let lv = self.read_reg(args.rs1);
        let rv = Self::sign_extend(args.imm);
        let v = lv.wrapping_add(rv);
        self.write_reg(args.rd, v);
    }

    /// rd = rs1 shifted left by the low five bits of the immediate.
    pub fn inst_slli(&mut self, args: &IType)
        requires
            args.wf(),
        ensures
            old(self).executed(Instruction::Slli(*args), final(self), Ok(())),
    {
        let lv = self.read_reg(args.rs1);
        let rv = Self::shift_amount(args.imm as u32);
        let v = lv << rv;
        self.write_reg(args.rd, v);
    }

    /// rd = 1 if rs1 is below the sign-extended immediate as signed values, else 0.
    pub fn inst_slti(&mut self, args: &IType)
        requires
            args.wf(),
        ensures
            old(self).executed(Instruction::Slti(*args), final(self), Ok(())),
    {
        let lv = self.read_reg(args.rs1);
        let rv = Self::sign_extend(args.imm);
        let v: u32 = if (lv as i32) < (rv as i32) {
            1
        } else {
            0
        };
        self.write_reg(args.rd, v);
    }

    /// rd = 1 if rs1 is below the sign-extended immediate as unsigned values, else 0.
    pub fn inst_sltiu(&mut self, args: &IType)
        requires
            args.wf(),
        ensures
            old(self).executed(Instruction::Sltiu(*args), final(self), Ok(())),
    {
        let lv = self.read_reg(args.rs1);
        let rv = Self::sign_extend(args.imm);
        let v: u32 = if lv < rv {
            1
        } else {
            0
        };
        self.write_reg(args.rd, v);
    }

    /// rd = rs1 ^ the sign-extended immediate.
    pub fn inst_xori(&mut self, args: &IType)
        requires
            args.wf(),
        ensures
            old(self).executed(Instruction::Xori(*args), final(self), Ok(())),
    {
        let lv = self.read_reg(args.rs1);
        let rv = Self::sign_extend(args.imm);
        let v = lv ^ rv;
        self.write_reg(args.rd, v);
    }

    /// rd = rs1 shifted right by the low five bits of the immediate, zero filled.
    pub fn inst_srli(&mut self, args: &IType)
        requires
            args.wf(),
        ensures
            old(self).executed(Instruction::Srli(*args), final(self), Ok(())),
    {
        let lv = self.read_reg(args.rs1);
        let rv = Self::shift_amount(args.imm as u32);
        let v = lv >> rv;
        self.write_reg(args.rd, v);
    }

    /// rd = rs1 shifted right by the low five bits of the immediate, sign filled.
    pub fn inst_srai(&mut self, args: &IType)
        requires
            args.wf(),
        ensures
            old(self).executed(Instruction::Srai(*args), final(self), Ok(())),
    {
        let lv = self.read_reg(args.rs1);
        let rv = Self::shift_amount(args.imm as u32);
        let v = ((lv as i32) >> rv) as u32;
        self.write_reg(args.rd, v);
    }

    /// rd = rs1 | the sign-extended immediate.
    pub fn inst_ori(&mut self, args: &IType)
        requires
            args.wf(),
        ensures
            old(self).executed(Instruction::Ori(*args), final(self), Ok(())),
    {
        let lv = self.read_reg(args.rs1);
        let rv = Self::sign_extend(args.imm);
        let v = lv | rv;
        self.write_reg(args.rd, v);
    }

    /// rd = rs1 & the sign-extended immediate.
    pub fn inst_andi(&mut self, args: &IType)
        requires
            args.wf(),
        ensures
            old(self).executed(Instruction::Andi(*args), final(self), Ok(())),
    {
        let lv = self.read_reg(args.rs1);
        let rv = Self::sign_extend(args.imm);
        let v = lv & rv;
        self.write_reg(args.rd, v);
    }

    /// rd = the byte at rs1 plus the offset, sign-extended.
    /// Bytes outside the memory's length raise `LoadAccessFault`: over a
    /// memory of length zero, such as `EmptyMemory`, every load does.
    pub fn inst_lb(&mut self, args: &IType) -> (r: Result<(), Exception>)
        requires
            args.wf(),
        ensures
            old(self).executed(Instruction::Lb(*args), final(self), r),
    {
        let addr = self.data_address(args.rs1, args.imm);
        if !self.check_access(addr, 1) {
            return Err(Exception::LoadAccessFault);
        }
        let v = (self.mem.read_byte(addr as usize) as i8) as u32;
        self.write_reg(args.rd, v);
        Ok(())
    }

    /// rd = the halfword at rs1 plus the offset, sign-extended.
    /// Bytes outside the memory's length raise `LoadAccessFault`: over a
    /// memory of length zero, such as `EmptyMemory`, every load does.
    pub fn inst_lh(&mut self, args: &IType) -> (r: Result<(), Exception>)
        requires
            args.wf(),
        ensures
            old(self).executed(Instruction::Lh(*args), final(self), r),
    {
        let addr = self.data_address(args.rs1, args.imm);
        if !self.check_access(addr, 2) {
            return Err(Exception::LoadAccessFault);
        }
        let v = (self.mem.read_halfword(addr as usize) as i16) as u32;
        self.write_reg(args.rd, v);
        Ok(())
    }

    /// rd = the word at rs1 plus the offset.
    /// Bytes outside the memory's length raise `LoadAccessFault`: over a
    /// memory of length zero, such as `EmptyMemory`, every load does.
    pub fn inst_lw(&mut self, args: &IType) -> (r: Result<(), Exception>)
        requires
            args.wf(),
        ensures
            old(self).executed(Instruction::Lw(*args), final(self), r),
    {
        let addr = self.data_address(args.rs1, args.imm);
        if !self.check_access(addr, 4) {
            return Err(Exception::LoadAccessFault);
        }
        let v = self.mem.read_word(addr as usize);
        self.write_reg(args.rd, v);
        Ok(())
    }

    /// rd = the byte at rs1 plus the offset, zero-extended.
    /// Bytes outside the memory's length raise `LoadAccessFault`: over a
    /// memory of length zero, such as `EmptyMemory`, every load does.
    pub fn inst_lbu(&mut self, args: &IType) -> (r: Result<(), Exception>)
        requires
            args.wf(),
        ensures
            old(self).executed(Instruction::Lbu(*args), final(self), r),
    {
        let addr = self.data_address(args.rs1, args.imm);
        if !self.check_access(addr, 1) {
            return Err(Exception::LoadAccessFault);
        }
        let v = self.mem.read_byte(addr as usize) as u32;
        self.write_reg(args.rd, v);
        Ok(())
    }

    /// rd = the halfword at rs1 plus the offset, zero-extended.
    /// Bytes outside the memory's length raise `LoadAccessFault`: over a
    /// memory of length zero, such as `EmptyMemory`, every load does.
    pub fn inst_lhu(&mut self, args: &IType) -> (r: Result<(), Exception>)
        requires
            args.wf(),
        ensures
            old(self).executed(Instruction::Lhu(*args), final(self), r),
    {
        let addr = self.data_address(args.rs1, args.imm);
        if !self.check_access(addr, 2) {
            return Err(Exception::LoadAccessFault);
        }
        let v = self.mem.read_halfword(addr as usize) as u32;
        self.write_reg(args.rd, v);
        Ok(())
    }

    /// rd = the CSR, then the CSR = rs1.
    /// An access that the mode does not permit raises `IllegalInstruction`.
    /// The source register is read after rd has been written.
    pub fn inst_csrrw(&mut self, args: &IType) -> (r: Result<(), Exception>)
        requires
            args.wf(),
        ensures
            old(self).executed(Instruction::Csrrw(*args), final(self), r),
    {
        let old_csr = self.read_csr(args.imm)?;
        self.write_reg(args.rd, old_csr);
        let value = self.read_reg(args.rs1);
        self.write_csr(args.imm, value)?;
        Ok(())
    }

    /// rd = the CSR, then the bits of rs1 are set in the CSR.
    /// An access that the mode does not permit raises `IllegalInstruction`.
    /// The source register is read after rd has been written.
    pub fn inst_csrrs(&mut self, args: &IType) -> (r: Result<(), Exception>)
        requires
            args.wf(),
        ensures
            old(self).executed(Instruction::Csrrs(*args), final(self), r),
    {
        let old_csr = self.read_csr(args.imm)?;
        self.write_reg(args.rd, old_csr);
        let value = self.read_reg(args.rs1);
        self.write_csr(args.imm, old_csr | value)?;
        Ok(())
    }

    /// rd = the CSR, then the bits of rs1 are cleared in the CSR.
    /// An access that the mode does not permit raises `IllegalInstruction`.
    /// The source register is read after rd has been written.
    pub fn inst_csrrc(&mut self, args: &IType) -> (r: Result<(), Exception>)
        requires
            args.wf(),
        ensures
            old(self).executed(Instruction::Csrrc(*args), final(self), r),
    {
        let old_csr = self.read_csr(args.imm)?;
        self.write_reg(args.rd, old_csr);
        let value = self.read_reg(args.rs1);
        self.write_csr(args.imm, old_csr & !value)?;
        Ok(())
    }

    /// rd = the CSR, then the CSR = the 5-bit immediate.
    /// An access that the mode does not permit raises `IllegalInstruction`.
    pub fn inst_csrrwi(&mut self, args: &IType) -> (r: Result<(), Exception>)
        requires
            args.wf(),
        ensures
            old(self).executed(Instruction::Csrrwi(*args), final(self), r),
    {
        let old_csr = self.read_csr(args.imm)?;
        self.write_reg(args.rd, old_csr);
        // `rs1` is treated as immediate.
        self.write_csr(args.imm, args.rs1 as u32)?;
        Ok(())
    }

    /// rd = the CSR, then the bits of the 5-bit immediate are set in the CSR.
    /// An access that the mode does not permit raises `IllegalInstruction`.
    pub fn inst_csrrsi(&mut self, args: &IType) -> (r: Result<(), Exception>)
        requires
            args.wf(),
        ensures
            old(self).executed(Instruction::Csrrsi(*args), final(self), r),
    {
        let old_csr = self.read_csr(args.imm)?;
        self.write_reg(args.rd, old_csr);
        self.write_csr(args.imm, old_csr | args.rs1 as u32)?;
        Ok(())
    }

    /// rd = the CSR, then the bits of the 5-bit immediate are cleared in the CSR.
    /// An access that the mode does not permit raises `IllegalInstruction`.
    pub fn inst_csrrci(&mut self, args: &IType) -> (r: Result<(), Exception>)
        requires
            args.wf(),
        ensures
            old(self).executed(Instruction::Csrrci(*args), final(self), r),
    {
        let old_csr = self.read_csr(args.imm)?;
        self.write_reg(args.rd, old_csr);
        self.write_csr(args.imm, old_csr & !(args.rs1 as u32))?;
        Ok(())
    }

    /// Store the low byte of rs2 at rs1 plus the offset.
    /// Bytes outside the memory's length raise `StoreAccessFault`: over a
    /// memory of length zero, such as `EmptyMemory`, every store does.
    pub fn inst_sb(&mut self, args: &SType) -> (r: Result<(), Exception>)
        requires
            args.wf(),
        ensures
            old(self).executed(Instruction::Sb(*args), final(self), r),
    {
        let addr = self.data_address(args.rs1, args.imm);
        if !self.check_access(addr, 1) {
            return Err(Exception::StoreAccessFault);
        }
        let data = self.read_reg(args.rs2);
        self.mem.write_byte(addr as usize, data as u8);
        Ok(())
    }

    /// Store the low halfword of rs2 at rs1 plus the offset.
    /// Bytes outside the memory's length raise `StoreAccessFault`: over a
    /// memory of length zero, such as `EmptyMemory`, every store does.
    pub fn inst_sh(&mut self, args: &SType) -> (r: Result<(), Exception>)
        requires
            args.wf(),
        ensures
            old(self).executed(Instruction::Sh(*args), final(self), r),
    {
        let addr = self.data_address(args.rs1, args.imm);
        if !self.check_access(addr, 2) {
            return Err(Exception::StoreAccessFault);
        }
        let data = self.read_reg(args.rs2);
        self.mem.write_halfword(addr as usize, data as u16);
        Ok(())
    }

    /// Store rs2 at rs1 plus the offset.
    /// Bytes outside the memory's length raise `StoreAccessFault`: over a
    /// memory of length zero, such as `EmptyMemory`, every store does.
    pub fn inst_sw(&mut self, args: &SType) -> (r: Result<(), Exception>)
        requires
            args.wf(),
        ensures
            old(self).executed(Instruction::Sw(*args), final(self), r),
    {
        let addr = self.data_address(args.rs1, args.imm);
        if !self.check_access(addr, 4) {
            return Err(Exception::StoreAccessFault);
        }
        let data = self.read_reg(args.rs2);
        self.mem.write_word(addr as usize, data);
        Ok(())
    }

    /// What a branch with the given condition and offset leaves: nothing
    /// changed where the condition fails; `InstructionAddressMisaligned` and
    /// nothing changed where it holds and the offset is not a multiple of
    /// four; else the program counter moved by the offset and the jump mark
    /// set.
    pub open spec fn branched(
        &self,
        condition: bool,
        offset: u16,
        post: &Self,
        r: Result<(), Exception>,
    ) -> bool {
        if !condition {
            r == Ok::<(), Exception>(()) && self.unchanged(post)
        } else if sign_extend_13(offset) % 4 != 0 {
            r == Err::<(), Exception>(Exception::InstructionAddressMisaligned) && self.unchanged(
                post,
            )
        } else {
            &&& r == Ok::<(), Exception>(())
            &&& post.pc == self.pc.wrapping_add(sign_extend_13(offset))
            &&& post.has_jumped
            &&& post.regs@ == self.regs@
            &&& self.same_system(post)
        }
    }

    // Inner procedure which is common to branch instructions.
    // `offset` is branch instructions' immediate.
    pub fn branch_inner(&mut self, condition: bool, offset: u16) -> (r: Result<(), Exception>)
        ensures
            old(self).branched(condition, offset, final(self), r),
    {
        if condition {
            let offset = Self::sign_extend_branch(offset);
            if offset % 4 != 0 {
                // This exception is generated only if the branch condition is true.
                // cf. RISC-V Unprivileged ISA V20191213
                Err(Exception::InstructionAddressMisaligned)
            } else {
                self.pc = self.pc.wrapping_add(offset);
                self.has_jumped = true;
                Ok(())
            }
        } else {
            Ok(())
        }
    }

    /// Branch if rs1 equals rs2.
    pub fn inst_beq(&mut self, args: &BType) -> (r: Result<(), Exception>)
        requires
            args.wf(),
        ensures
            old(self).executed(Instruction::Beq(*args), final(self), r),
    {
        let lv = self.read_reg(args.rs1);
        let rv = self.read_reg(args.rs2);
        self.branch_inner(lv == rv, args.imm)
    }

    /// Branch if rs1 differs from rs2.
    pub fn inst_bne(&mut self, args: &BType) -> (r: Result<(), Exception>)
        requires
            args.wf(),
        ensures
            old(self).executed(Instruction::Bne(*args), final(self), r),
    {
        let lv = self.read_reg(args.rs1);
        let rv = self.read_reg(args.rs2);
        self.branch_inner(lv != rv, args.imm)
    }

    /// Branch if rs1 is below rs2 as signed values.
    pub fn inst_blt(&mut self, args: &BType) -> (r: Result<(), Exception>)
        requires
            args.wf(),
        ensures
            old(self).executed(Instruction::Blt(*args), final(self), r),
    {
        let lv = self.read_reg(args.rs1) as i32;
        let rv = self.read_reg(args.rs2) as i32;
        self.branch_inner(lv < rv, args.imm)
    }

    /// Branch if rs1 is not below rs2 as signed values.
    pub fn inst_bge(&mut self, args: &BType) -> (r: Result<(), Exception>)
        requires
            args.wf(),
        ensures
            old(self).executed(Instruction::Bge(*args), final(self), r),
    {
        let lv = self.read_reg(args.rs1) as i32;
        let rv = self.read_reg(args.rs2) as i32;
        self.branch_inner(lv >= rv, args.imm)
    }

    /// Branch if rs1 is below rs2 as unsigned values.
    pub fn inst_bltu(&mut self, args: &BType) -> (r: Result<(), Exception>)
        requires
            args.wf(),
        ensures
            old(self).executed(Instruction::Bltu(*args), final(self), r),
    {
        let lv = self.read_reg(args.rs1);
        let rv = self.read_reg(args.rs2);
        self.branch_inner(lv < rv, args.imm)
    }

    /// Branch if rs1 is not below rs2 as unsigned values.
    pub fn inst_bgeu(&mut self, args: &BType) -> (r: Result<(), Exception>)
        requires
            args.wf(),
        ensures
            old(self).executed(Instruction::Bgeu(*args), final(self), r),
    {
        let lv = self.read_reg(args.rs1);
        let rv = self.read_reg(args.rs2);
        self.branch_inner(lv >= rv, args.imm)
    }

    /// rd = the program counter plus the upper immediate, wrapping. The
    /// program counter itself is left to advance.
    pub fn inst_auipc(&mut self, args: &UType)
        requires
            args.wf(),
        ensures
            old(self).executed(Instruction::Auipc(*args), final(self), Ok(())),
    {
        let target = self.pc.wrapping_add(args.imm);
        self.write_reg(args.rd, target);
    }

    /// rd = the upper immediate.
    pub fn inst_lui(&mut self, args: &UType)
        requires
            args.wf(),
        ensures
            old(self).executed(Instruction::Lui(*args), final(self), Ok(())),
    {
        self.write_reg(args.rd, args.imm);
    }

    /// Jump to the program counter plus the offset, and link: rd receives
    /// the address of the next instruction. A target that is not a multiple
    /// of four raises `InstructionAddressMisaligned`.
    pub fn inst_jal(&mut self, args: &JType) -> (r: Result<(), Exception>)
        requires
            args.wf(),
        ensures
            old(self).executed(Instruction::Jal(*args), final(self), r),
    {
        let offset = Self::sign_extend_20bit(args.imm);
        let new_pc = self.pc.wrapping_add(offset);
        if new_pc % 4 != 0 {
            return Err(Exception::InstructionAddressMisaligned);
        }
        self.write_reg(args.rd, self.pc.wrapping_add(4));
        self.set_pc(new_pc);
        self.has_jumped = true;
        Ok(())
    }
}

// The fetch, decode and execute cycle.
impl<M: Memory> Processor<M> {
    /// Read an instruction from current program counter and execute it.
    pub fn tick(&mut self) -> (r: Result<(), Exception>)
        ensures
            old(self).ticked(final(self), r),
    {
        self.has_jumped = false;
        if !self.check_access(self.pc, 4) {
            return Err(Exception::InstructionAccessFault);
        }
        let raw_inst = self.mem.read_inst(self.pc as usize);
        match decode(raw_inst)? {
            // R-Type
            Instruction::Add(args) => self.inst_add(&args),
            Instruction::Sub(args) => self.inst_sub(&args),
            Instruction::Sll(args) => self.inst_sll(&args),
            Instruction::Slt(args) => self.inst_slt(&args),
            Instruction::Sltu(args) => self.inst_sltu(&args),
            Instruction::Xor(args) => self.inst_xor(&args),
            Instruction::Srl(args) => self.inst_srl(&args),
            Instruction::Sra(args) => self.inst_sra(&args),
            Instruction::Or(args) => self.inst_or(&args),
            Instruction::And(args) => self.inst_and(&args),
            // I-Type
            Instruction::Jalr(args) => self.inst_jalr(&args)?,
            Instruction::Addi(args) => self.inst_addi(&args),
            Instruction::Slli(args) => self.inst_slli(&args),
            Instruction::Slti(args) => self.inst_slti(&args),
            Instruction::Sltiu(args) => self.inst_sltiu(&args),
            Instruction::Xori(args) => self.inst_xori(&args),
            Instruction::Srli(args) => self.inst_srli(&args),
            Instruction::Srai(args) => self.inst_srai(&args),
            Instruction::Ori(args) => self.inst_ori(&args),
            Instruction::Andi(args) => self.inst_andi(&args),
            Instruction::Lb(args) => self.inst_lb(&args)?,
            Instruction::Lh(args) => self.inst_lh(&args)?,
            Instruction::Lw(args) => self.inst_lw(&args)?,
            Instruction::Lbu(args) => self.inst_lbu(&args)?,
            Instruction::Lhu(args) => self.inst_lhu(&args)?,
            Instruction::Csrrw(args) => self.inst_csrrw(&args)?,
            Instruction::Csrrs(args) => self.inst_csrrs(&args)?,
            Instruction::Csrrc(args) => self.inst_csrrc(&args)?,
            Instruction::Csrrwi(args) => self.inst_csrrwi(&args)?,
            Instruction::Csrrsi(args) => self.inst_csrrsi(&args)?,
            Instruction::Csrrci(args) => self.inst_csrrci(&args)?,
            // S-Type
            Instruction::Sb(args) => self.inst_sb(&args)?,
            Instruction::Sh(args) => self.inst_sh(&args)?,
            Instruction::Sw(args) => self.inst_sw(&args)?,
            // B-Type
            Instruction::Beq(args) => self.inst_beq(&args)?,
            Instruction::Bne(args) => self.inst_bne(&args)?,
            Instruction::Blt(args) => self.inst_blt(&args)?,
            Instruction::Bge(args) => self.inst_bge(&args)?,
            Instruction::Bltu(args) => self.inst_bltu(&args)?,
            Instruction::Bgeu(args) => self.inst_bgeu(&args)?,
            // U-Type
            Instruction::Auipc(args) => self.inst_auipc(&args),
            Instruction::Lui(args) => self.inst_lui(&args),
            // J-Type
            Instruction::Jal(args) => self.inst_jal(&args)?,
        }

        // If no jump occured, increment pc.
        if !self.has_jumped {
            self.pc = self.pc.wrapping_add(4);
        }
        self.has_jumped = false;

        Ok(())
    }
}

// Loading a program and running it.
impl<M: Memory> Processor<M> {
    /// `post` is reached from this state by `n` ticks that all complete.
    pub open spec fn runs_to(&self, post: &Self, n: nat) -> bool
        decreases n,
    {
        if n == 0 {
            self.same_state(post)
        } else {
            exists|mid: Self|
                self.runs_to(&mid, (n - 1) as nat) && #[trigger] mid.ticked(
                    post,
                    Ok::<(), Exception>(()),
                )
        }
    }

    /// Load a program, which is an array of `u32` integer, in the `address`.
    ///
    /// The address must be a multiple of four, and the memory must serve a
    /// word access at the place of every instruction. Afterwards every byte
    /// outside the program's place reads as before, and in a memory that
    /// keeps stores a fetch at the place of each instruction finds it.
    pub fn load(&mut self, address: u32, program: Vec<u32>)
        requires
            address % 4 == 0,
            address + 4 * program@.len() <= usize::MAX,
            forall|i: int|
                0 <= i < program@.len() ==> #[trigger] old(self).mem.accepts(address + 4 * i, 4),
        ensures
            same_shape(old(self).mem, final(self).mem),
            forall|a: int|
                !(address <= a < address + 4 * program@.len())
                    ==> #[trigger] final(self).mem.byte_at(a) == old(self).mem.byte_at(a),
            !old(self).mem.keeps_stores() ==> same_contents(old(self).mem, final(self).mem),
            old(self).mem.keeps_stores() ==> forall|i: int|
                0 <= i < program@.len() ==> #[trigger] inst_at(final(self).mem, address + 4 * i)
                    == program@[i],
            final(self).pc == old(self).pc,
            final(self).regs@ == old(self).regs@,
            final(self).csr@ == old(self).csr@,
            final(self).mode == old(self).mode,
            final(self).has_jumped == old(self).has_jumped,
    {
        let mut index: usize = 0;
        while index < program.len()
            invariant
                index <= program@.len(),
                address + 4 * program@.len() <= usize::MAX,
                same_shape(old(self).mem, self.mem),
                forall|i: int|
                    0 <= i < program@.len() ==> #[trigger] old(self).mem.accepts(
                        address + 4 * i,
                        4,
                    ),
                forall|a: int|
                    !(address <= a < address + 4 * index)
                        ==> #[trigger] self.mem.byte_at(a) == old(self).mem.byte_at(a),
                !old(self).mem.keeps_stores() ==> same_contents(old(self).mem, self.mem),
                old(self).mem.keeps_stores() ==> forall|i: int|
                    0 <= i < index ==> #[trigger] inst_at(self.mem, address + 4 * i) == program@[i],
                self.pc == old(self).pc,
                self.regs@ == old(self).regs@,
                self.csr@ == old(self).csr@,
                self.mode == old(self).mode,
                self.has_jumped == old(self).has_jumped,
            decreases program@.len() - index,
        {
            let ghost before = self.mem;
            let place = address as usize + index * 4;
            assert(old(self).mem.accepts(address + 4 * index, 4));
            self.mem.write_inst(place, program[index]);
            proof {
                if before.keeps_stores() {
                    lemma_inst_round_trip(before, self.mem, place as int, program@[index as int]);
                    assert forall|i: int| 0 <= i < index implies #[trigger] inst_at(
                        self.mem,
                        address + 4 * i,
                    ) == program@[i] by {
                        assert(inst_at(before, address + 4 * i) == program@[i]);
                    }
                }
            }
            index += 1;
        }
    }

    /// Runs ticks until one fails or `limit` of them have completed.
    ///
    /// Returns the number of ticks that completed and the exception that
    /// ended the run, if one did. The state left is the one that the
    /// completed ticks reach; where an exception ended the run, it is the
    /// one with which a tick in that state fails.
    pub fn run(&mut self, limit: u64) -> (r: (u64, Option<Exception>))
        ensures
            r.0 <= limit,
            old(self).runs_to(final(self), r.0 as nat),
            r.1 matches Some(e) ==> final(self).tick_trap() == Some(e),
            r.1 is None ==> r.0 == limit,
    {
        let mut ticks: u64 = 0;
        while ticks < limit
            invariant
                ticks <= limit,
                old(self).runs_to(self, ticks as nat),
            decreases limit - ticks,
        {
            let ghost before = *self;
            match self.tick() {
                Err(e) => {
                    proof {
                        before.lemma_failed_tick(self, e);
                        old(self).lemma_runs_to_same(&before, self, ticks as nat);
                    }
                    return (ticks, Some(e));
                },
                Ok(()) => {
                    proof {
                        old(self).lemma_runs_to_next(&before, self, ticks as nat);
                    }
                    ticks += 1;
                },
            }
        }
        (ticks, None)
    }

    /// Execute the program stored in the memory: ticks are run until one
    /// fails. Returns the exception that ended the run, or `None` after
    /// `u64::MAX` ticks have completed without one.
    ///
    /// The state left is one that completed ticks reach from the state
    /// before. Where an exception is returned, it is the one with which a
    /// tick in the state left fails; `None` is returned only after exactly
    /// `u64::MAX` completed ticks.
    pub fn execute(&mut self) -> (r: Option<Exception>)
        ensures
            exists|n: nat| n <= u64::MAX && old(self).runs_to(final(self), n),
            r matches Some(e) ==> final(self).tick_trap() == Some(e),
            r is None ==> old(self).runs_to(final(self), u64::MAX as nat),
    {
        let (_ticks, trap) = self.run(u64::MAX);
        trap
    }

    /// A tick that fails in this state fails with this state's
    /// `tick_trap`, and a tick in the state it leaves fails in the same way.
    pub proof fn lemma_failed_tick(&self, post: &Self, e: Exception)
        requires
            self.ticked(post, Err::<(), Exception>(e)),
        ensures
            self.tick_trap() == Some(e),
            post.tick_trap() == Some(e),
    {
        if let Ok(inst) = self.current() {
            self.lemma_same_meaning(post, inst);
        }
    }

    /// The meaning of an instruction is the same in two states that differ
    /// in nothing but the jump mark.
    pub proof fn lemma_same_meaning(&self, other: &Self, inst: Instruction)
        requires
            self.same_state(other),
        ensures
            other.current() == self.current(),
            other.trap_of(inst) == self.trap_of(inst),
            other.reg_write(inst) == self.reg_write(inst),
            other.regs_after(inst) == self.regs_after(inst),
            other.csrs_after(inst) == self.csrs_after(inst),
            other.store_of(inst) == self.store_of(inst),
            other.jump_of(inst) == self.jump_of(inst),
    {
    }

    /// A state that differs from one reached by `n` completed ticks in
    /// nothing but the jump mark is reached by them too.
    pub proof fn lemma_runs_to_same(&self, mid: &Self, post: &Self, n: nat)
        requires
            self.runs_to(mid, n),
            mid.same_state(post),
            !post.has_jumped,
        ensures
            self.runs_to(post, n),
    {
        if n > 0 {
            let before = choose|before: Self|
                self.runs_to(&before, (n - 1) as nat) && #[trigger] before.ticked(
                    mid,
                    Ok::<(), Exception>(()),
                );
            assert(before.ticked(post, Ok::<(), Exception>(())));
        }
    }

    /// One more completed tick extends a run by one.
    pub proof fn lemma_runs_to_next(&self, mid: &Self, post: &Self, n: nat)
        requires
            self.runs_to(mid, n),
            mid.ticked(post, Ok::<(), Exception>(())),
        ensures
            self.runs_to(post, n + 1),
    {
        assert(self.runs_to(mid, ((n + 1) - 1) as nat));
    }
}

// Laws of the register file and of the program counter.
impl<M: Memory> Processor<M> {
    /// An instruction that completes and is neither a jump nor a taken
    /// branch leaves the program counter four further on, wrapping.
    pub proof fn lemma_tick_advances(&self, post: &Self, inst: Instruction)
        requires
            self.ticked(post, Ok::<(), Exception>(())),
            self.current() == Ok::<Instruction, Exception>(inst),
            self.jump_of(inst) is None,
        ensures
            post.pc == self.pc.wrapping_add(4),
    {
    }

    /// A tick that starts with the program counter at a multiple of four
    /// leaves it at one, whether the tick completes or fails.
    pub proof fn lemma_tick_keeps_alignment(&self, post: &Self, r: Result<(), Exception>)
        requires
            self.ticked(post, r),
            self.pc % 4 == 0,
        ensures
            post.pc % 4 == 0,
    {
    }

    /// A taken branch whose offset is a multiple of four completes and
    /// leaves the program counter moved by the sign-extended offset,
    /// wrapping.
    pub proof fn lemma_tick_taken_branch(
        &self,
        post: &Self,
        r: Result<(), Exception>,
        inst: Instruction,
        args: BType,
    )
        requires
            self.ticked(post, r),
            self.current() == Ok::<Instruction, Exception>(inst),
            inst == Instruction::Beq(args) || inst == Instruction::Bne(args) || inst
                == Instruction::Blt(args) || inst == Instruction::Bge(args) || inst
                == Instruction::Bltu(args) || inst == Instruction::Bgeu(args),
            self.branch_taken(inst),
            sign_extend_13(args.imm) % 4 == 0,
        ensures
            r is Ok,
            post.pc == self.pc.wrapping_add(sign_extend_13(args.imm)),
    {
    }

    /// The target of an indirect jump has bit 0 clear whatever the base and
    /// the offset are, so the jump raises an exception exactly when bit 1
    /// of their sum is set.
    pub proof fn lemma_jalr_target(&self, args: IType)
        ensures
            self.jalr_target(args) % 2 == 0,
            self.trap_of(Instruction::Jalr(args)) is Some <==> self.reg(args.rs1).wrapping_add(
                sign_extend_12(args.imm),
            ) & 2 != 0,
    {
        let sum = self.reg(args.rs1).wrapping_add(sign_extend_12(args.imm));
        assert((sum & 0xffff_fffe) % 2 == 0 && (((sum & 0xffff_fffe) % 4 != 0) <==> (sum & 2
            != 0))) by (bit_vector);
    }

    /// Of two CSRRW instructions on one register that is not read-only, in
    /// a mode that may access it, the first leaves its source value in the
    /// register, the second reads that value into its destination and
    /// leaves its own source value. Each instruction's destination is
    /// register 0 or differs from its source.
    pub proof fn lemma_csrrw_twice(&self, mid: &Self, post: &Self, first: IType, second: IType)
        requires
            first.wf(),
            second.wf(),
            first.imm == second.imm,
            permitted(first.imm as usize, self.mode),
            !read_only(first.imm as usize),
            first.rd == 0 || first.rd != first.rs1,
            second.rd == 0 || second.rd != second.rs1,
            self.executed(Instruction::Csrrw(first), mid, Ok::<(), Exception>(())),
            mid.executed(Instruction::Csrrw(second), post, Ok::<(), Exception>(())),
        ensures
            mid.csr@[first.imm as int] == self.reg(first.rs1),
            post.regs@ == write_reg_seq(mid.regs@, second.rd, self.reg(first.rs1)),
            post.csr@[first.imm as int] == mid.reg(second.rs1),
    {
        self.csr.lemma_len();
        mid.csr.lemma_len();
    }
}

/// A read of register 0 finds zero after any write, and a write to
/// register 0 changes no register.
pub proof fn lemma_register_zero(regs: Seq<u32>, idx: usize, val: u32)
    ensures
        read_reg_seq(write_reg_seq(regs, idx, val), 0) == 0,
        write_reg_seq(regs, 0, val) == regs,
{
}

} // verus!
