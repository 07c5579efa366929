use wadachi_cpu::csr::address::UTVEC;
use wadachi_cpu::decode::{BType, IType, JType, RType, SType, UType};
use wadachi_cpu::exception::Exception;
use wadachi_cpu::memory::{EmptyMemory, Memory, VectorMemory};
use wadachi_cpu::processor::Processor;

#[test]
fn calc_rv32i_r_add() {
    let memory = EmptyMemory;
    let args: RType = RType {
        rs1: 1,
        rs2: 2,
        rd: 3,
    };

    let mut proc = Processor::new(memory);

    proc.write_reg(1, 0x3);
    proc.write_reg(2, 0x7);
    proc.inst_add(&args);
    assert_eq!(proc.read_reg(3), 0xa);

    proc.write_reg(1, 0x7fffffff);
    proc.write_reg(2, 0x00007fff);
    proc.inst_add(&args);
    assert_eq!(proc.read_reg(3), 0x80007ffe);
}

#[test]
fn calc_rv32i_r_sub() {
    let memory = EmptyMemory;
    let args: RType = RType {
        rs1: 1,
        rs2: 2,
        rd: 3,
    };

    let mut proc = Processor::new(memory);

    proc.write_reg(1, 0x3);
    proc.write_reg(2, 0x7);
    proc.inst_sub(&args);
    assert_eq!(proc.read_reg(3), 0xfffffffc);

    proc.write_reg(1, 0x7fffffff);
    proc.write_reg(2, 0x00007fff);
    proc.inst_sub(&args);
    assert_eq!(proc.read_reg(3), 0x7fff8000);
}

#[test]
fn calc_rv32i_r_sll() {
    let memory = EmptyMemory;
    let args: RType = RType {
        rs1: 1,
        rs2: 2,
        rd: 3,
    };

    let mut proc = Processor::new(memory);

    proc.write_reg(1, 0x3);
    proc.write_reg(2, 0x7);
    proc.inst_sll(&args);
    assert_eq!(proc.read_reg(3), 0x180);

    proc.write_reg(1, 0xffff1234);
    proc.write_reg(2, 16);
    proc.inst_sll(&args);
    assert_eq!(proc.read_reg(3), 0x12340000);
}

#[test]
fn calc_rv32i_r_slt() {
    let memory = EmptyMemory;
    let args: RType = RType {
        rs1: 1,
        rs2: 2,
        rd: 3,
    };

    let mut proc = Processor::new(memory);

    proc.write_reg(1, 0x3);
    proc.write_reg(2, 0x3);
    proc.inst_slt(&args);
    assert_eq!(proc.read_reg(3), 0x0);

    proc.write_reg(1, 0x3);
    proc.write_reg(2, 0x7);
    proc.inst_slt(&args);
    assert_eq!(proc.read_reg(3), 0x1);

    proc.write_reg(1, 0x7fffffff);
    proc.write_reg(2, 0x00007fff);
    proc.inst_slt(&args);
    assert_eq!(proc.read_reg(3), 0x0);

    proc.write_reg(1, 0xffffffff);
    proc.write_reg(2, 0x00007fff);
    proc.inst_slt(&args);
    assert_eq!(proc.read_reg(3), 0x1);
}

#[test]
fn calc_rv32i_r_sltu() {
    let memory = EmptyMemory;
    let args: RType = RType {
        rs1: 1,
        rs2: 2,
        rd: 3,
    };

    let mut proc = Processor::new(memory);

    proc.write_reg(1, 0x3);
    proc.write_reg(2, 0x3);
    proc.inst_sltu(&args);
    assert_eq!(proc.read_reg(3), 0x0);

    proc.write_reg(1, 0x3);
    proc.write_reg(2, 0x7);
    proc.inst_sltu(&args);
    assert_eq!(proc.read_reg(3), 0x1);

    proc.write_reg(1, 0x7fffffff);
    proc.write_reg(2, 0x00007fff);
    proc.inst_sltu(&args);
    assert_eq!(proc.read_reg(3), 0x0);

    proc.write_reg(1, 0xffffffff);
    proc.write_reg(2, 0x00007fff);
    proc.inst_sltu(&args);
    assert_eq!(proc.read_reg(3), 0x0);
}

#[test]
fn calc_rv32i_r_xor() {
    let memory = EmptyMemory;
    let args: RType = RType {
        rs1: 1,
        rs2: 2,
        rd: 3,
    };

    let mut proc = Processor::new(memory);

    proc.write_reg(1, 0x1234);
    proc.write_reg(2, 0x5678);
    proc.inst_xor(&args);
    assert_eq!(proc.read_reg(3), 0x444c);

    proc.write_reg(1, 0x7fffffff);
    proc.write_reg(2, 0x00007fff);
    proc.inst_xor(&args);
    assert_eq!(proc.read_reg(3), 0x7fff8000);
}

#[test]
fn calc_rv32i_r_srl() {
    let memory = EmptyMemory;
    let args: RType = RType {
        rs1: 1,
        rs2: 2,
        rd: 3,
    };

    let mut proc = Processor::new(memory);

    proc.write_reg(1, 0x1234);
    proc.write_reg(2, 0x4);
    proc.inst_srl(&args);
    assert_eq!(proc.read_reg(3), 0x123);

    proc.write_reg(1, 0x80000000);
    proc.write_reg(2, 0x4);
    proc.inst_srl(&args);
    assert_eq!(proc.read_reg(3), 0x08000000);
}

#[test]
fn calc_rv32i_r_sra() {
    let memory = EmptyMemory;
    let args: RType = RType {
        rs1: 1,
        rs2: 2,
        rd: 3,
    };

    let mut proc = Processor::new(memory);

    proc.write_reg(1, 0x1234);
    proc.write_reg(2, 0x4);
    proc.inst_sra(&args);
    assert_eq!(proc.read_reg(3), 0x123);

    proc.write_reg(1, 0x80000000);
    proc.write_reg(2, 0x4);
    proc.inst_sra(&args);
    assert_eq!(proc.read_reg(3), 0xf8000000);
}

#[test]
fn calc_rv32i_r_and() {
    let memory = EmptyMemory;
    let args: RType = RType {
        rs1: 1,
        rs2: 2,
        rd: 3,
    };

    let mut proc = Processor::new(memory);

    proc.write_reg(1, 0x1234);
    proc.write_reg(2, 0x5678);
    proc.inst_and(&args);
    assert_eq!(proc.read_reg(3), 0x1230);

    proc.write_reg(1, 0x7fffffff);
    proc.write_reg(2, 0x00007fff);
    proc.inst_and(&args);
    assert_eq!(proc.read_reg(3), 0x00007fff);
}

#[test]
fn calc_rv32i_r_or() {
    let memory = EmptyMemory;
    let args: RType = RType {
        rs1: 1,
        rs2: 2,
        rd: 3,
    };

    let mut proc = Processor::new(memory);

    proc.write_reg(1, 0x1234);
    proc.write_reg(2, 0x5678);
    proc.inst_or(&args);
    assert_eq!(proc.read_reg(3), 0x567c);

    proc.write_reg(1, 0x7fff8000);
    proc.write_reg(2, 0x00007fff);
    proc.inst_or(&args);
    assert_eq!(proc.read_reg(3), 0x7fffffff);
}

#[test]
fn calc_rv32i_i_jalr() -> Result<(), Exception> {
    let memory = EmptyMemory;
    let args: IType = IType {
        rs1: 1,
        rd: 2,
        imm: 0x111,
    };

    let mut proc = Processor::new(memory);
    proc.set_pc(0x1234);

    proc.write_reg(1, 0x567);
    proc.inst_jalr(&args)?;
    assert_eq!(proc.read_reg(2), 0x1238);
    assert_eq!(proc.pc, 0x678);

    proc.pc = 0x1234;
    proc.write_reg(1, 0x543);
    proc.inst_jalr(&args)?;
    assert_eq!(proc.read_reg(2), 0x1238);
    assert_eq!(proc.pc, 0x654);
    Ok(())
}

#[test]
fn calc_rv32i_i_jalr_invalid_address() -> Result<(), Exception> {
    let memory = EmptyMemory;
    let args: IType = IType {
        rs1: 1,
        rd: 2,
        imm: 0x110,
    };

    let mut proc = Processor::new(memory);

    proc.pc = 0x1234;
    proc.write_reg(1, 0x567);
    // x1 == 0x677, which is not aligned to a 4byte boundary.
    assert_eq!(
        proc.inst_jalr(&args),
        Err(Exception::InstructionAddressMisaligned)
    );
    Ok(())
}

#[test]
fn calc_rv32i_i_addi() {
    let memory = EmptyMemory;
    let args: IType = IType {
        rs1: 1,
        rd: 2,
        imm: 0x123,
    };

    let mut proc = Processor::new(memory);

    proc.write_reg(1, 0x567);
    proc.inst_addi(&args);
    assert_eq!(proc.read_reg(2), 0x68a);
}

#[test]
fn calc_rv32i_i_slli() {
    let memory = EmptyMemory;
    let args: IType = IType {
        rs1: 1,
        rd: 2,
        imm: 0x3,
    };

    let mut proc = Processor::new(memory);

    proc.write_reg(1, 0x5678);
    proc.inst_slli(&args);
    assert_eq!(proc.read_reg(2), 0x2b3c0);
}

#[test]
fn calc_rv32i_i_slti() {
    let memory = EmptyMemory;
    let args: IType = IType {
        rs1: 1,
        rd: 2,
        imm: 0x123,
    };

    let mut proc = Processor::new(memory);

    proc.write_reg(1, 0x567);
    proc.inst_slti(&args);
    assert_eq!(proc.read_reg(2), 0x0);

    proc.write_reg(1, 0x0);
    proc.inst_slti(&args);
    assert_eq!(proc.read_reg(2), 0x1);

    proc.write_reg(1, 0xffffffff);
    proc.inst_slti(&args);
    assert_eq!(proc.read_reg(2), 0x1);
}

#[test]
fn calc_rv32i_i_sltiu() {
    let memory = EmptyMemory;
    let args: IType = IType {
        rs1: 1,
        rd: 2,
        imm: 0x123,
    };

    let mut proc = Processor::new(memory);

    proc.write_reg(1, 0x5678);
    proc.inst_sltiu(&args);
    assert_eq!(proc.read_reg(2), 0x0);

    proc.write_reg(1, 0x0);
    proc.inst_sltiu(&args);
    assert_eq!(proc.read_reg(2), 0x1);

    proc.write_reg(1, 0xffffffff);
    proc.inst_sltiu(&args);
    assert_eq!(proc.read_reg(2), 0x0);
}

#[test]
fn calc_rv32i_i_xori() {
    let memory = EmptyMemory;
    let args: IType = IType {
        rs1: 1,
        rd: 2,
        imm: 0x123,
    };

    let mut proc = Processor::new(memory);

    proc.write_reg(1, 0x5678);
    proc.inst_xori(&args);
    assert_eq!(proc.read_reg(2), 0x575b);
}

#[test]
fn calc_rv32i_i_srli() {
    let memory = EmptyMemory;
    let args: IType = IType {
        rs1: 1,
        rd: 2,
        imm: 0x3,
    };

    let mut proc = Processor::new(memory);

    proc.write_reg(1, 0x5678);
    proc.inst_srli(&args);
    assert_eq!(proc.read_reg(2), 0xacf);

    proc.write_reg(1, 0x80000000);
    proc.inst_srli(&args);
    assert_eq!(proc.read_reg(2), 0x10000000);
}

#[test]
fn calc_rv32i_i_srai() {
    let memory = EmptyMemory;
    let args: IType = IType {
        rs1: 1,
        rd: 2,
        imm: 0x3,
    };

    let mut proc = Processor::new(memory);

    proc.write_reg(1, 0x5678);
    proc.inst_srai(&args);
    assert_eq!(proc.read_reg(2), 0xacf);

    proc.write_reg(1, 0x80000000);
    proc.inst_srai(&args);
    assert_eq!(proc.read_reg(2), 0xf0000000);
}

#[test]
fn calc_rv32i_i_ori() {
    let memory = EmptyMemory;
    let args: IType = IType {
        rs1: 1,
        rd: 2,
        imm: 0x123,
    };

    let mut proc = Processor::new(memory);

    proc.write_reg(1, 0x5678);
    proc.inst_ori(&args);
    assert_eq!(proc.read_reg(2), 0x577b);
}

#[test]
fn calc_rv32i_i_andi() {
    let memory = EmptyMemory;
    let args: IType = IType {
        rs1: 1,
        rd: 2,
        imm: 0x123,
    };

    let mut proc = Processor::new(memory);

    proc.write_reg(1, 0x5678);
    proc.inst_andi(&args);
    assert_eq!(proc.read_reg(2), 0x020);
}

#[test]
fn calc_rv32i_i_load() {
    let memory = vec![0x0, 0x0, 0x0, 0x0, 0x80, 0x80, 0x08, 0x08];
    let memory = VectorMemory::from(memory);
    let args: IType = IType {
        rs1: 1,
        rd: 2,
        imm: 0x0,
    };

    let mut proc = Processor::new(memory);
    proc.write_reg(1, 4);

    assert_eq!(proc.inst_lb(&args), Ok(()));
    assert_eq!(proc.read_reg(2), 0xffffff80);

    assert_eq!(proc.inst_lh(&args), Ok(()));
    assert_eq!(proc.read_reg(2), 0xffff8080);

    assert_eq!(proc.inst_lw(&args), Ok(()));
    assert_eq!(proc.read_reg(2), 0x08088080);

    assert_eq!(proc.inst_lbu(&args), Ok(()));
    assert_eq!(proc.read_reg(2), 0x80);

    assert_eq!(proc.inst_lhu(&args), Ok(()));
    assert_eq!(proc.read_reg(2), 0x8080);

    let args: IType = IType {
        rs1: 1,
        rd: 2,
        imm: 0x4,
    };

    proc.write_reg(1, 0);

    assert_eq!(proc.inst_lb(&args), Ok(()));
    assert_eq!(proc.read_reg(2), 0xffffff80);

    assert_eq!(proc.inst_lh(&args), Ok(()));
    assert_eq!(proc.read_reg(2), 0xffff8080);

    assert_eq!(proc.inst_lw(&args), Ok(()));
    assert_eq!(proc.read_reg(2), 0x08088080);

    assert_eq!(proc.inst_lbu(&args), Ok(()));
    assert_eq!(proc.read_reg(2), 0x80);

    assert_eq!(proc.inst_lhu(&args), Ok(()));
    assert_eq!(proc.read_reg(2), 0x8080);
}

#[test]
fn calc_rv32i_i_csrrw() -> Result<(), Exception> {
    let memory = vec![0; 8];
    let memory = VectorMemory::from(memory);
    let args = IType {
        rd: 1,
        rs1: 2,
        imm: UTVEC as u16,
    };

    let mut proc = Processor::new(memory);
    proc.write_reg(args.rs1, 0x2);
    proc.write_csr(args.imm, 0x1)?;
    proc.inst_csrrw(&args)?;
    assert_eq!(proc.read_reg(args.rd), 0x1); // rd = CSR[args.imm]
    assert_eq!(proc.read_csr(args.imm)?, 0x2); // CSR[args.imm] = rs1
    Ok(())
}

#[test]
fn calc_rv32i_i_csrrs() -> Result<(), Exception> {
    let memory = vec![0; 8];
    let memory = VectorMemory::from(memory);
    let args = IType {
        rd: 1,
        rs1: 2,
        imm: UTVEC as u16,
    };

    let mut proc = Processor::new(memory);
    proc.write_reg(args.rs1, 0x2);
    proc.write_csr(args.imm, 0x1)?;
    proc.inst_csrrs(&args)?;
    assert_eq!(proc.read_reg(args.rd), 0x1); // rd = CSR[args.imm]
    assert_eq!(proc.read_csr(args.imm)?, 0x3); // CSR[args.imm] |= rs1
    Ok(())
}

#[test]
fn calc_rv32i_i_csrrc() -> Result<(), Exception> {
    let memory = vec![0; 8];
    let memory = VectorMemory::from(memory);
    let args = IType {
        rd: 1,
        rs1: 2,
        imm: UTVEC as u16,
    };

    let mut proc = Processor::new(memory);
    proc.write_reg(args.rs1, 0x2);
    proc.write_csr(args.imm, 0x4)?;
    proc.inst_csrrc(&args)?;
    assert_eq!(proc.read_reg(args.rd), 0x4); // rd = CSR[args.imm]
    assert_eq!(proc.read_csr(args.imm)?, 0x4); // CSR[args.imm] &= !rs1
    Ok(())
}

#[test]
fn calc_rv32i_i_csrrwi() -> Result<(), Exception> {
    let memory = vec![0; 8];
    let memory = VectorMemory::from(memory);
    let args = IType {
        rd: 1,
        rs1: 2,
        imm: UTVEC as u16,
    };

    let mut proc = Processor::new(memory);
    proc.write_csr(args.imm, 0x1)?;
    proc.inst_csrrwi(&args)?;
    assert_eq!(proc.read_reg(args.rd), 0x1); // rd = CSR[args.imm]
    assert_eq!(proc.read_csr(args.imm)?, 0x2); // CSR[args.imm] = rs1
    Ok(())
}

#[test]
fn calc_rv32i_i_csrrsi() -> Result<(), Exception> {
    let memory = vec![0; 8];
    let memory = VectorMemory::from(memory);
    let args = IType {
        rd: 1,
        rs1: 2,
        imm: UTVEC as u16,
    };

    let mut proc = Processor::new(memory);
    proc.write_csr(args.imm, 0x1)?;
    proc.inst_csrrsi(&args)?;
    assert_eq!(proc.read_reg(args.rd), 0x1); // rd = CSR[args.imm]
    assert_eq!(proc.read_csr(args.imm)?, 0x3); // CSR[args.imm] &= !rs1
    Ok(())
}

#[test]
fn calc_rv32i_i_csrrci() -> Result<(), Exception> {
    let memory = vec![0; 8];
    let memory = VectorMemory::from(memory);
    let args = IType {
        rd: 1,
        rs1: 2,
        imm: UTVEC as u16,
    };

    let mut proc = Processor::new(memory);
    proc.write_csr(args.imm, 0x4)?;
    proc.inst_csrrci(&args)?;
    assert_eq!(proc.read_reg(args.rd), 0x4); // rd = CSR[args.imm]
    assert_eq!(proc.read_csr(args.imm)?, 0x4); // CSR[args.imm] |= rs1
    Ok(())
}

#[test]
fn calc_rv32i_s_sb() {
    let memory = vec![0; 8];
    let memory = VectorMemory::from(memory);
    let args = SType {
        rs1: 1,
        rs2: 2,
        imm: 0x2,
    };

    let mut proc = Processor::new(memory);
    proc.write_reg(1, 0x2);
    proc.write_reg(2, 0x180);
    assert_eq!(proc.inst_sb(&args), Ok(()));
    assert_eq!(proc.mem.read_byte(4), 0x80);
}

#[test]
fn calc_rv32i_s_sh() {
    let memory = vec![0; 8];
    let memory = VectorMemory::from(memory);
    let args = SType {
        rs1: 1,
        rs2: 2,
        imm: 0x2,
    };

    let mut proc = Processor::new(memory);
    proc.write_reg(1, 0x2);
    proc.write_reg(2, 0x18080);
    assert_eq!(proc.inst_sh(&args), Ok(()));
    assert_eq!(proc.mem.read_halfword(4), 0x8080);
}

#[test]
fn calc_rv32i_s_sw() {
    let memory = vec![0; 8];
    let memory = VectorMemory::from(memory);
    let args = SType {
        rs1: 1,
        rs2: 2,
        imm: 0x2,
    };

    let mut proc = Processor::new(memory);
    proc.write_reg(1, 0x2);
    proc.write_reg(2, 0x80808080);
    assert_eq!(proc.inst_sw(&args), Ok(()));
    assert_eq!(proc.mem.read_word(4), 0x80808080);
}

#[test]
fn calc_rv32i_b_beq() -> Result<(), Exception> {
    let memory = EmptyMemory;
    let args = BType {
        rs1: 1,
        rs2: 2,
        imm: 0x80,
    };

    let mut proc = Processor::new(memory);
    proc.write_reg(1, 42);
    proc.write_reg(2, 42);
    proc.inst_beq(&args)?;
    assert_eq!(proc.pc, 0x80);
    Ok(())
}

// Test for invalid address in branch instruction is enough for this case because a processing the
// exception is abstracted in `Processor::branch_inner()`.
#[test]
fn calc_rv32i_b_beq_invalid_address() -> Result<(), Exception> {
    let memory = EmptyMemory;
    let args = BType {
        rs1: 1,
        rs2: 2,
        imm: 0x81,
    };

    let mut proc = Processor::new(memory);
    proc.write_reg(1, 42);
    proc.write_reg(2, 42);
    assert_eq!(
        proc.inst_beq(&args),
        Err(Exception::InstructionAddressMisaligned)
    );
    Ok(())
}

#[test]
fn calc_rv32i_b_bne() -> Result<(), Exception> {
    let memory = EmptyMemory;
    let args = BType {
        rs1: 1,
        rs2: 2,
        imm: 0x80,
    };

    let mut proc = Processor::new(memory);
    proc.write_reg(1, 42);
    proc.write_reg(2, 0);
    proc.inst_bne(&args)?;
    assert_eq!(proc.pc, 0x80);
    Ok(())
}

#[test]
fn calc_rv32i_b_blt() -> Result<(), Exception> {
    let memory = EmptyMemory;
    let args = BType {
        rs1: 1,
        rs2: 2,
        imm: 0x80,
    };

    let mut proc = Processor::new(memory);
    proc.write_reg(1, 0xffffff80);
    proc.write_reg(2, 0);
    // Compare register values as signed value.
    proc.inst_blt(&args)?;
    assert_eq!(proc.pc, 0x80);
    Ok(())
}

#[test]
fn calc_rv32i_b_bgt() -> Result<(), Exception> {
    let memory = EmptyMemory;
    let args = BType {
        rs1: 1,
        rs2: 2,
        imm: 0x80,
    };

    let mut proc = Processor::new(memory);
    proc.write_reg(1, 0);
    proc.write_reg(2, 0xffffff80);
    // Compare register values as signed value.
    proc.inst_bge(&args)?;
    assert_eq!(proc.pc, 0x80);

    proc.write_reg(1, 0xffffff80);
    proc.write_reg(2, 0xffffff80);
    // Compare register values as signed value.
    proc.inst_bge(&args)?;
    assert_eq!(proc.pc, 0x100);
    Ok(())
}

#[test]
fn calc_rv32i_b_bltu() -> Result<(), Exception> {
    let memory = EmptyMemory;
    let args = BType {
        rs1: 1,
        rs2: 2,
        imm: 0x80,
    };

    let mut proc = Processor::new(memory);
    proc.write_reg(1, 0);
    proc.write_reg(2, 0xffffff80);
    // Compare register values as unsigned value.
    proc.inst_bltu(&args)?;
    assert_eq!(proc.pc, 0x80);
    Ok(())
}

#[test]
fn calc_rv32i_b_bgtu() -> Result<(), Exception> {
    let memory = EmptyMemory;
    let args = BType {
        rs1: 1,
        rs2: 2,
        imm: 0x80,
    };

    let mut proc = Processor::new(memory);
    proc.write_reg(1, 0xffffff80);
    proc.write_reg(2, 0);
    // Compare register values as unsigned value.
    proc.inst_bgeu(&args)?;
    assert_eq!(proc.pc, 0x80);

    proc.write_reg(1, 0xffffff80);
    proc.write_reg(2, 0xffffff80);
    // Compare register values as signed value.
    proc.inst_bgeu(&args)?;
    assert_eq!(proc.pc, 0x100);
    Ok(())
}

#[test]
fn calc_rv32i_u_lui() {
    let memory = EmptyMemory;
    let args = UType {
        rd: 1,
        imm: 0xfffff,
    };

    let mut proc = Processor::new(memory);
    proc.write_reg(1, 0x0);
    proc.inst_lui(&args);
    // rd receives the immediate as it is.
    assert_eq!(proc.read_reg(args.rd), 0xfffff);
}

#[test]
fn calc_rv32i_u_auipc() {
    let memory = EmptyMemory;
    let args = UType {
        rd: 1,
        imm: 0xfffff,
    };

    let mut proc = Processor::new(memory);
    proc.write_reg(1, 0x0);
    // If pc is 0, cannot detect not adding `imm` to current pc.
    proc.set_pc(0x4);
    proc.inst_auipc(&args);
    // rd receives pc plus the immediate; pc is left to advance.
    assert_eq!(proc.read_reg(args.rd), 0x100003);
    assert_eq!(proc.pc, 0x4);
}

#[test]
fn calc_rv32i_j_jal() -> Result<(), Exception> {
    let memory = EmptyMemory;
    let args = JType { rd: 1, imm: 0x80 };

    let mut proc = Processor::new(memory);
    proc.write_reg(1, 0x0);
    proc.set_pc(0x4);
    proc.inst_jal(&args)?;
    assert_eq!(proc.read_reg(args.rd), 0x8);
    assert_eq!(proc.pc, 0x84);

    let args = JType {
        rd: 1,
        imm: 0xfffffffc, // -4
    };
    proc.inst_jal(&args)?;
    assert_eq!(proc.read_reg(args.rd), 0x88);
    assert_eq!(proc.pc, 0x80);
    Ok(())
}

#[test]
fn calc_rv32i_j_jal_invalid_address() -> Result<(), Exception> {
    let memory = EmptyMemory;
    let args = JType { rd: 1, imm: 0x82 };

    let mut proc = Processor::new(memory);
    proc.write_reg(1, 0x0);
    assert_eq!(
        proc.inst_jal(&args),
        Err(Exception::InstructionAddressMisaligned)
    );
    Ok(())
}
