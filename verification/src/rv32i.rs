//! The RV32I base-ISA execution handlers: one function per mnemonic,
//! operating on the core registers and, for loads and stores, the memory
//! bus. Each handler's contract pins the whole machine-state change down
//! via the step relations defined here.

use vstd::prelude::*;

use crate::bus::{sread, swrite, Bus, BusModel};
use crate::exception::Exception;
use crate::riscv_core::{
    b_cond, reg_val, spec_i_alu, spec_r_op, with_reg, BInstruction, BOp, CoreModel, IInstruction,
    IOp, JInstruction, RInstruction, ROp, RVCore, SInstruction, SOp, UInstruction, UOp,
};
use crate::word::{le32, s32_val, sext16, sext8, w32, wbyte};

verus! {

/// Step relation of every register-register instruction: it always
/// succeeds and writes `spec_r_op` of the two source values to the
/// destination.
pub open spec fn r_step(op: ROp, i: RInstruction, c0: CoreModel, c1: CoreModel, r: Result<
    (),
    Exception,
>) -> bool {
    &&& r == Ok::<(), Exception>(())
    &&& c1 == with_reg(c0, i.rd, spec_r_op(op, reg_val(c0, i.rs1), reg_val(c0, i.rs2)))
}

/// Step relation of every immediate-ALU instruction.
pub open spec fn i_alu_step(op: IOp, i: IInstruction, c0: CoreModel, c1: CoreModel, r: Result<
    (),
    Exception,
>) -> bool {
    &&& r == Ok::<(), Exception>(())
    &&& c1 == with_reg(c0, i.rd, spec_i_alu(op, reg_val(c0, i.rs1), i.imm))
}

/// The value and bus a load of kind `op` yields at byte address `addr`:
/// one, two or four byte reads at consecutive (wrapping) addresses,
/// assembled little-endian and sign- or zero-extended. Side effects of
/// the byte reads that succeeded persist even when a later one faults.
pub open spec fn spec_load(op: IOp, b0: BusModel, addr: u32) -> (Result<u32, Exception>, BusModel) {
    if op == IOp::Lb || op == IOp::Lbu {
        let (r0, b1) = sread(b0, addr as int);
        match r0 {
            Err(e) => (Err(e), b1),
            Ok(v) => (Ok(if op == IOp::Lb { sext8(v) } else { v as u32 }), b1),
        }
    } else if op == IOp::Lh || op == IOp::Lhu {
        let (r0, b1) = sread(b0, addr as int);
        match r0 {
            Err(e) => (Err(e), b1),
            Ok(v0) => {
                let (r1, b2) = sread(b1, w32(addr + 1) as int);
                match r1 {
                    Err(e) => (Err(e), b2),
                    Ok(v1) => (
                        Ok(if op == IOp::Lh { sext16(v0, v1) } else { le32(v0, v1, 0, 0) }),
                        b2,
                    ),
                }
            },
        }
    } else {
        let (r0, b1) = sread(b0, addr as int);
        match r0 {
            Err(e) => (Err(e), b1),
            Ok(v0) => {
                let (r1, b2) = sread(b1, w32(addr + 1) as int);
                match r1 {
                    Err(e) => (Err(e), b2),
                    Ok(v1) => {
                        let (r2, b3) = sread(b2, w32(addr + 2) as int);
                        match r2 {
                            Err(e) => (Err(e), b3),
                            Ok(v2) => {
                                let (r3, b4) = sread(b3, w32(addr + 3) as int);
                                match r3 {
                                    Err(e) => (Err(e), b4),
                                    Ok(v3) => (Ok(le32(v0, v1, v2, v3)), b4),
                                }
                            },
                        }
                    },
                }
            },
        }
    }
}

/// Step relation of a load: the effective address is the first source
/// value plus the immediate, wrapping; on success the destination gets
/// the loaded value, on a fault the core is untouched and the fault is
/// returned.
pub open spec fn load_step(
    op: IOp,
    i: IInstruction,
    c0: CoreModel,
    b0: BusModel,
    c1: CoreModel,
    b1: BusModel,
    r: Result<(), Exception>,
) -> bool {
    let addr = w32(reg_val(c0, i.rs1) + i.imm);
    let (res, b2) = spec_load(op, b0, addr);
    &&& b1 == b2
    &&& match res {
        Ok(v) => r == Ok::<(), Exception>(()) && c1 == with_reg(c0, i.rd, v),
        Err(e) => r == Err::<(), Exception>(e) && c1 == c0,
    }
}

/// The bus after a store of kind `op` of `value` at byte address `addr`:
/// one, two or four little-endian byte writes at consecutive (wrapping)
/// addresses. Bytes stored before a faulting byte persist.
pub open spec fn spec_store(op: SOp, b0: BusModel, addr: u32, value: u32) -> (
    Result<(), Exception>,
    BusModel,
) {
    if op == SOp::Sb {
        swrite(b0, addr as int, wbyte(value, 0))
    } else if op == SOp::Sh {
        let (r0, b1) = swrite(b0, addr as int, wbyte(value, 0));
        match r0 {
            Err(e) => (Err(e), b1),
            Ok(_) => swrite(b1, w32(addr + 1) as int, wbyte(value, 1)),
        }
    } else {
        let (r0, b1) = swrite(b0, addr as int, wbyte(value, 0));
        match r0 {
            Err(e) => (Err(e), b1),
            Ok(_) => {
                let (r1, b2) = swrite(b1, w32(addr + 1) as int, wbyte(value, 1));
                match r1 {
                    Err(e) => (Err(e), b2),
                    Ok(_) => {
                        let (r2, b3) = swrite(b2, w32(addr + 2) as int, wbyte(value, 2));
                        match r2 {
                            Err(e) => (Err(e), b3),
                            Ok(_) => swrite(b3, w32(addr + 3) as int, wbyte(value, 3)),
                        }
                    },
                }
            },
        }
    }
}

/// Step relation of a store: the effective address is the first source
/// value plus the immediate, wrapping; the second source value is
/// stored. The core itself never changes.
pub open spec fn store_step(
    op: SOp,
    i: SInstruction,
    c0: CoreModel,
    b0: BusModel,
    c1: CoreModel,
    b1: BusModel,
    r: Result<(), Exception>,
) -> bool {
    let addr = w32(reg_val(c0, i.rs1) + i.imm);
    let (res, b2) = spec_store(op, b0, addr, reg_val(c0, i.rs2));
    &&& b1 == b2
    &&& c1 == c0
    &&& r == res
}

/// Step relation of a branch: always succeeds; when taken, the program
/// counter moves to the branch target minus the instruction width the
/// run loop will add back.
pub open spec fn branch_step(op: BOp, i: BInstruction, c0: CoreModel, c1: CoreModel, r: Result<
    (),
    Exception,
>) -> bool {
    &&& r == Ok::<(), Exception>(())
    &&& c1 == if b_cond(op, reg_val(c0, i.rs1), reg_val(c0, i.rs2)) {
        CoreModel { pc: w32(w32(c0.pc + i.imm) - 4), ..c0 }
    } else {
        c0
    }
}

/// Step relation of `jal`: a misaligned target faults and changes
/// nothing; otherwise the return address lands in the destination and
/// the program counter moves to the target minus the run loop's step.
pub open spec fn jal_step(i: JInstruction, c0: CoreModel, c1: CoreModel, r: Result<
    (),
    Exception,
>) -> bool {
    let target = w32(c0.pc + i.imm);
    if target % 4 != 0 {
        r == Err::<(), Exception>(Exception::InstructionAddressMisaligned) && c1 == c0
    } else {
        &&& r == Ok::<(), Exception>(())
        &&& c1 == (CoreModel { pc: w32(target - 4), ..with_reg(c0, i.rd, w32(c0.pc + 4)) })
    }
}

/// Step relation of `jalr`: as `jal`, with the target computed from the
/// first source value and its lowest bit forced to zero before the
/// alignment check.
pub open spec fn jalr_step(i: IInstruction, c0: CoreModel, c1: CoreModel, r: Result<
    (),
    Exception,
>) -> bool {
    let t0 = w32(reg_val(c0, i.rs1) + i.imm);
    let target = ((t0 / 2) * 2) as u32;
    if target % 4 != 0 {
        r == Err::<(), Exception>(Exception::InstructionAddressMisaligned) && c1 == c0
    } else {
        &&& r == Ok::<(), Exception>(())
        &&& c1 == (CoreModel { pc: w32(target - 4), ..with_reg(c0, i.rd, w32(c0.pc + 4)) })
    }
}

/// Step relation of the upper-immediate instructions: `lui` writes the
/// immediate itself, `auipc` the immediate plus the program counter.
pub open spec fn u_step(op: UOp, i: UInstruction, c0: CoreModel, c1: CoreModel, r: Result<
    (),
    Exception,
>) -> bool {
    &&& r == Ok::<(), Exception>(())
    &&& c1 == with_reg(
        c0,
        i.rd,
        if op == UOp::Lui {
            i.imm
        } else {
            w32(c0.pc + i.imm)
        },
    )
}

/// Law: a taken branch parks the program counter four bytes short of its
/// target, so after the run loop's automatic advance the next fetch lands
/// exactly on the branch target — the program counter plus the immediate,
/// wrapping.
pub proof fn lemma_branch_net_target(op: BOp, i: BInstruction, c0: CoreModel, c1: CoreModel, r:
    Result<(), Exception>)
    requires
        branch_step(op, i, c0, c1, r),
        b_cond(op, reg_val(c0, i.rs1), reg_val(c0, i.rs2)),
    ensures
        w32(c1.pc + 4) == w32(c0.pc + i.imm),
{
    let t = w32(c0.pc + i.imm);
    assert(c1.pc == w32(t - 4));
    if t >= 4 {
        assert(w32(t - 4) == t - 4);
        assert(w32(t - 4 + 4) == t);
    } else {
        assert(w32(t - 4) == t - 4 + 0x1_0000_0000);
        assert(w32(t - 4 + 0x1_0000_0000 + 4) == t);
    }
}

pub fn add(instr: &RInstruction, core: &mut RVCore) -> (r: Result<(), Exception>)
    requires
        old(core).wf(),
        instr.wf(),
    ensures
        final(core).wf(),
        r_step(ROp::Add, *instr, old(core)@, final(core)@, r),
{
    let rs1_val = core.read_reg(instr.rs1);
    let rs2_val = core.read_reg(instr.rs2);

    proof {
        crate::word::lemma_wrapping_add_w32(rs1_val, rs2_val);
    }
    core.write_reg(instr.rd, rs1_val.wrapping_add(rs2_val));
    Ok(())
}

pub fn sub(instr: &RInstruction, core: &mut RVCore) -> (r: Result<(), Exception>)
    requires
        old(core).wf(),
        instr.wf(),
    ensures
        final(core).wf(),
        r_step(ROp::Sub, *instr, old(core)@, final(core)@, r),
{
    let rs1_val = core.read_reg(instr.rs1);
    let rs2_val = core.read_reg(instr.rs2);

    proof {
        crate::word::lemma_wrapping_sub_w32(rs1_val, rs2_val);
    }
    core.write_reg(instr.rd, rs1_val.wrapping_sub(rs2_val));
    Ok(())
}

pub fn xor(instr: &RInstruction, core: &mut RVCore) -> (r: Result<(), Exception>)
    requires
        old(core).wf(),
        instr.wf(),
    ensures
        final(core).wf(),
        r_step(ROp::Xor, *instr, old(core)@, final(core)@, r),
{
    let rs1_val = core.read_reg(instr.rs1);
    let rs2_val = core.read_reg(instr.rs2);

    core.write_reg(instr.rd, rs1_val ^ rs2_val);
    Ok(())
}

pub fn or(instr: &RInstruction, core: &mut RVCore) -> (r: Result<(), Exception>)
    requires
        old(core).wf(),
        instr.wf(),
    ensures
        final(core).wf(),
        r_step(ROp::Or, *instr, old(core)@, final(core)@, r),
{
    let rs1_val = core.read_reg(instr.rs1);
    let rs2_val = core.read_reg(instr.rs2);

    core.write_reg(instr.rd, rs1_val | rs2_val);
    Ok(())
}

pub fn and(instr: &RInstruction, core: &mut RVCore) -> (r: Result<(), Exception>)
    requires
        old(core).wf(),
        instr.wf(),
    ensures
        final(core).wf(),
        r_step(ROp::And, *instr, old(core)@, final(core)@, r),
{
    let rs1_val = core.read_reg(instr.rs1);
    let rs2_val = core.read_reg(instr.rs2);

    core.write_reg(instr.rd, rs1_val & rs2_val);
    Ok(())
}

pub fn sll(instr: &RInstruction, core: &mut RVCore) -> (r: Result<(), Exception>)
    requires
        old(core).wf(),
        instr.wf(),
    ensures
        final(core).wf(),
        r_step(ROp::Sll, *instr, old(core)@, final(core)@, r),
{
    let rs1_val = core.read_reg(instr.rs1);
    let rs2_val = core.read_reg(instr.rs2);

    core.write_reg(instr.rd, rs1_val.wrapping_shl(rs2_val));
    Ok(())
}

pub fn srl(instr: &RInstruction, core: &mut RVCore) -> (r: Result<(), Exception>)
    requires
        old(core).wf(),
        instr.wf(),
    ensures
        final(core).wf(),
        r_step(ROp::Srl, *instr, old(core)@, final(core)@, r),
{
    let rs1_val = core.read_reg(instr.rs1);
    let rs2_val = core.read_reg(instr.rs2);

    core.write_reg(instr.rd, rs1_val.wrapping_shr(rs2_val));
    Ok(())
}

pub fn sra(instr: &RInstruction, core: &mut RVCore) -> (r: Result<(), Exception>)
    requires
        old(core).wf(),
        instr.wf(),
    ensures
        final(core).wf(),
        r_step(ROp::Sra, *instr, old(core)@, final(core)@, r),
{
    let rs1_val = core.read_reg(instr.rs1);
    let rs2_val = core.read_reg(instr.rs2);
    let val = (rs1_val as i32).wrapping_shr(rs2_val) as u32;

    core.write_reg(instr.rd, val);
    Ok(())
}

pub fn slt(instr: &RInstruction, core: &mut RVCore) -> (r: Result<(), Exception>)
    requires
        old(core).wf(),
        instr.wf(),
    ensures
        final(core).wf(),
        r_step(ROp::Slt, *instr, old(core)@, final(core)@, r),
{
    let rs1_val = core.read_reg(instr.rs1);
    let rs2_val = core.read_reg(instr.rs2);
    let val: u32 = if s32_val(rs1_val) < s32_val(rs2_val) {
        1
    } else {
        0
    };

    core.write_reg(instr.rd, val);
    Ok(())
}

pub fn sltu(instr: &RInstruction, core: &mut RVCore) -> (r: Result<(), Exception>)
    requires
        old(core).wf(),
        instr.wf(),
    ensures
        final(core).wf(),
        r_step(ROp::Sltu, *instr, old(core)@, final(core)@, r),
{
    let rs1_val = core.read_reg(instr.rs1);
    let rs2_val = core.read_reg(instr.rs2);
    let val: u32 = if rs1_val < rs2_val {
        1
    } else {
        0
    };

    core.write_reg(instr.rd, val);
    Ok(())
}

pub fn addi(instr: &IInstruction, bus: &mut Bus, core: &mut RVCore) -> (r: Result<(), Exception>)
    requires
        old(core).wf(),
        old(bus).wf(),
        instr.wf(),
    ensures
        final(core).wf(),
        final(bus).wf(),
        final(bus)@ == old(bus)@,
        i_alu_step(IOp::Addi, *instr, old(core)@, final(core)@, r),
{
    let rs1_val = core.read_reg(instr.rs1);

    proof {
        crate::word::lemma_wrapping_add_w32(rs1_val, instr.imm);
    }
    core.write_reg(instr.rd, rs1_val.wrapping_add(instr.imm));
    Ok(())
}

pub fn xori(instr: &IInstruction, bus: &mut Bus, core: &mut RVCore) -> (r: Result<(), Exception>)
    requires
        old(core).wf(),
        old(bus).wf(),
        instr.wf(),
    ensures
        final(core).wf(),
        final(bus).wf(),
        final(bus)@ == old(bus)@,
        i_alu_step(IOp::Xori, *instr, old(core)@, final(core)@, r),
{
    let rs1_val = core.read_reg(instr.rs1);

    core.write_reg(instr.rd, rs1_val ^ instr.imm);
    Ok(())
}

pub fn ori(instr: &IInstruction, bus: &mut Bus, core: &mut RVCore) -> (r: Result<(), Exception>)
    requires
        old(core).wf(),
        old(bus).wf(),
        instr.wf(),
    ensures
        final(core).wf(),
        final(bus).wf(),
        final(bus)@ == old(bus)@,
        i_alu_step(IOp::Ori, *instr, old(core)@, final(core)@, r),
{
    let rs1_val = core.read_reg(instr.rs1);

    core.write_reg(instr.rd, rs1_val | instr.imm);
    Ok(())
}

pub fn andi(instr: &IInstruction, bus: &mut Bus, core: &mut RVCore) -> (r: Result<(), Exception>)
    requires
        old(core).wf(),
        old(bus).wf(),
        instr.wf(),
    ensures
        final(core).wf(),
        final(bus).wf(),
        final(bus)@ == old(bus)@,
        i_alu_step(IOp::Andi, *instr, old(core)@, final(core)@, r),
{
    let rs1_val = core.read_reg(instr.rs1);

    core.write_reg(instr.rd, rs1_val & instr.imm);
    Ok(())
}

pub fn slli(instr: &IInstruction, bus: &mut Bus, core: &mut RVCore) -> (r: Result<(), Exception>)
    requires
        old(core).wf(),
        old(bus).wf(),
        instr.wf(),
    ensures
        final(core).wf(),
        final(bus).wf(),
        final(bus)@ == old(bus)@,
        i_alu_step(IOp::Slli, *instr, old(core)@, final(core)@, r),
{
    let rs1_val = core.read_reg(instr.rs1);

    core.write_reg(instr.rd, rs1_val.wrapping_shl(instr.imm));
    Ok(())
}

pub fn srli(instr: &IInstruction, bus: &mut Bus, core: &mut RVCore) -> (r: Result<(), Exception>)
    requires
        old(core).wf(),
        old(bus).wf(),
        instr.wf(),
    ensures
        final(core).wf(),
        final(bus).wf(),
        final(bus)@ == old(bus)@,
        i_alu_step(IOp::Srli, *instr, old(core)@, final(core)@, r),
{
    let rs1_val = core.read_reg(instr.rs1);

    core.write_reg(instr.rd, rs1_val.wrapping_shr(instr.imm));
    Ok(())
}

pub fn srai(instr: &IInstruction, bus: &mut Bus, core: &mut RVCore) -> (r: Result<(), Exception>)
    requires
        old(core).wf(),
        old(bus).wf(),
        instr.wf(),
    ensures
        final(core).wf(),
        final(bus).wf(),
        final(bus)@ == old(bus)@,
        i_alu_step(IOp::Srai, *instr, old(core)@, final(core)@, r),
{
    let rs1_val = core.read_reg(instr.rs1);
    let val = (rs1_val as i32).wrapping_shr(instr.imm) as u32;

    core.write_reg(instr.rd, val);
    Ok(())
}

pub fn slti(instr: &IInstruction, bus: &mut Bus, core: &mut RVCore) -> (r: Result<(), Exception>)
    requires
        old(core).wf(),
        old(bus).wf(),
        instr.wf(),
    ensures
        final(core).wf(),
        final(bus).wf(),
        final(bus)@ == old(bus)@,
        i_alu_step(IOp::Slti, *instr, old(core)@, final(core)@, r),
{
    let rs1_val = core.read_reg(instr.rs1);
    let val: u32 = if s32_val(rs1_val) < s32_val(instr.imm) {
        1
    } else {
        0
    };

    core.write_reg(instr.rd, val);
    Ok(())
}

pub fn sltui(instr: &IInstruction, bus: &mut Bus, core: &mut RVCore) -> (r: Result<(), Exception>)
    requires
        old(core).wf(),
        old(bus).wf(),
        instr.wf(),
    ensures
        final(core).wf(),
        final(bus).wf(),
        final(bus)@ == old(bus)@,
        i_alu_step(IOp::Sltui, *instr, old(core)@, final(core)@, r),
{
    let rs1_val = core.read_reg(instr.rs1);
    let val: u32 = if rs1_val < instr.imm {
        1
    } else {
        0
    };

    core.write_reg(instr.rd, val);
    Ok(())
}

pub fn lb(instr: &IInstruction, bus: &mut Bus, core: &mut RVCore) -> (r: Result<(), Exception>)
    requires
        old(core).wf(),
        old(bus).wf(),
        instr.wf(),
    ensures
        final(core).wf(),
        final(bus).wf(),
        load_step(IOp::Lb, *instr, old(core)@, old(bus)@, final(core)@, final(bus)@, r),
{
    let rs1_val = core.read_reg(instr.rs1);
    let addres = rs1_val.wrapping_add(instr.imm);
    proof {
        crate::word::lemma_wrapping_add_w32(rs1_val, instr.imm);
    }
    let mem_val = match bus.read_byte(addres as usize) {
        Ok(v) => v,
        Err(e) => {
            return Err(e);
        },
    };
    let val: u32 = if mem_val >= 0x80 {
        (mem_val as u32) + 0xFFFFFF00
    } else {
        mem_val as u32
    };
    core.write_reg(instr.rd, val);

    Ok(())
}

pub fn lh(instr: &IInstruction, bus: &mut Bus, core: &mut RVCore) -> (r: Result<(), Exception>)
    requires
        old(core).wf(),
        old(bus).wf(),
        instr.wf(),
    ensures
        final(core).wf(),
        final(bus).wf(),
        load_step(IOp::Lh, *instr, old(core)@, old(bus)@, final(core)@, final(bus)@, r),
{
    let rs1_val = core.read_reg(instr.rs1);
    let addres = rs1_val.wrapping_add(instr.imm);
    proof {
        crate::word::lemma_wrapping_add_w32(rs1_val, instr.imm);
        crate::word::lemma_wrapping_add_w32(addres, 1);
    }
    let val_1 = match bus.read_byte(addres as usize) {
        Ok(v) => v,
        Err(e) => {
            return Err(e);
        },
    };
    let val_2 = match bus.read_byte(addres.wrapping_add(1) as usize) {
        Ok(v) => v,
        Err(e) => {
            return Err(e);
        },
    };
    let val: u32 = if val_2 >= 0x80 {
        (val_1 as u32) + (val_2 as u32) * 0x100 + 0xFFFF0000
    } else {
        (val_1 as u32) + (val_2 as u32) * 0x100
    };
    core.write_reg(instr.rd, val);

    Ok(())
}

pub fn lw(instr: &IInstruction, bus: &mut Bus, core: &mut RVCore) -> (r: Result<(), Exception>)
    requires
        old(core).wf(),
        old(bus).wf(),
        instr.wf(),
    ensures
        final(core).wf(),
        final(bus).wf(),
        load_step(IOp::Lw, *instr, old(core)@, old(bus)@, final(core)@, final(bus)@, r),
{
    let rs1_val = core.read_reg(instr.rs1);
    let addres = rs1_val.wrapping_add(instr.imm);
    proof {
        crate::word::lemma_wrapping_add_w32(rs1_val, instr.imm);
        crate::word::lemma_wrapping_add_w32(addres, 1);
        crate::word::lemma_wrapping_add_w32(addres, 2);
        crate::word::lemma_wrapping_add_w32(addres, 3);
    }
    let val_1 = match bus.read_byte(addres as usize) {
        Ok(v) => v,
        Err(e) => {
            return Err(e);
        },
    };
    let val_2 = match bus.read_byte(addres.wrapping_add(1) as usize) {
        Ok(v) => v,
        Err(e) => {
            return Err(e);
        },
    };
    let val_3 = match bus.read_byte(addres.wrapping_add(2) as usize) {
        Ok(v) => v,
        Err(e) => {
            return Err(e);
        },
    };
    let val_4 = match bus.read_byte(addres.wrapping_add(3) as usize) {
        Ok(v) => v,
        Err(e) => {
            return Err(e);
        },
    };
    let val: u32 = (val_1 as u32) + (val_2 as u32) * 0x100 + (val_3 as u32) * 0x1_0000 + (val_4
        as u32) * 0x100_0000;
    core.write_reg(instr.rd, val);

    Ok(())
}

pub fn lbu(instr: &IInstruction, bus: &mut Bus, core: &mut RVCore) -> (r: Result<(), Exception>)
    requires
        old(core).wf(),
        old(bus).wf(),
        instr.wf(),
    ensures
        final(core).wf(),
        final(bus).wf(),
        load_step(IOp::Lbu, *instr, old(core)@, old(bus)@, final(core)@, final(bus)@, r),
{
    let rs1_val = core.read_reg(instr.rs1);
    let addres = rs1_val.wrapping_add(instr.imm);
    proof {
        crate::word::lemma_wrapping_add_w32(rs1_val, instr.imm);
    }
    let val = match bus.read_byte(addres as usize) {
        Ok(v) => v,
        Err(e) => {
            return Err(e);
        },
    };
    core.write_reg(instr.rd, val as u32);

    Ok(())
}

pub fn lhu(instr: &IInstruction, bus: &mut Bus, core: &mut RVCore) -> (r: Result<(), Exception>)
    requires
        old(core).wf(),
        old(bus).wf(),
        instr.wf(),
    ensures
        final(core).wf(),
        final(bus).wf(),
        load_step(IOp::Lhu, *instr, old(core)@, old(bus)@, final(core)@, final(bus)@, r),
{
    let rs1_val = core.read_reg(instr.rs1);
    let addres = rs1_val.wrapping_add(instr.imm);
    proof {
        crate::word::lemma_wrapping_add_w32(rs1_val, instr.imm);
        crate::word::lemma_wrapping_add_w32(addres, 1);
    }
    let val_1 = match bus.read_byte(addres as usize) {
        Ok(v) => v,
        Err(e) => {
            return Err(e);
        },
    };
    let val_2 = match bus.read_byte(addres.wrapping_add(1) as usize) {
        Ok(v) => v,
        Err(e) => {
            return Err(e);
        },
    };
    core.write_reg(instr.rd, (val_1 as u32) + (val_2 as u32) * 0x100);
    Ok(())
}

pub fn sb(instr: &SInstruction, bus: &mut Bus, core: &mut RVCore) -> (r: Result<(), Exception>)
    requires
        old(core).wf(),
        old(bus).wf(),
        instr.wf(),
    ensures
        final(core).wf(),
        final(bus).wf(),
        store_step(SOp::Sb, *instr, old(core)@, old(bus)@, final(core)@, final(bus)@, r),
{
    let rs1_val = core.read_reg(instr.rs1);
    let rs2_val = core.read_reg(instr.rs2);
    let addres = rs1_val.wrapping_add(instr.imm);
    proof {
        crate::word::lemma_wrapping_add_w32(rs1_val, instr.imm);
    }
    bus.write_byte(addres as usize, (rs2_val % 0x100) as u8)
}

pub fn sh(instr: &SInstruction, bus: &mut Bus, core: &mut RVCore) -> (r: Result<(), Exception>)
    requires
        old(core).wf(),
        old(bus).wf(),
        instr.wf(),
    ensures
        final(core).wf(),
        final(bus).wf(),
        store_step(SOp::Sh, *instr, old(core)@, old(bus)@, final(core)@, final(bus)@, r),
{
    let rs1_val = core.read_reg(instr.rs1);
    let rs2_val = core.read_reg(instr.rs2);
    let addres = rs1_val.wrapping_add(instr.imm);
    proof {
        crate::word::lemma_wrapping_add_w32(rs1_val, instr.imm);
        crate::word::lemma_wrapping_add_w32(addres, 1);
    }
    match bus.write_byte(addres as usize, (rs2_val % 0x100) as u8) {
        Ok(_) => {},
        Err(e) => {
            return Err(e);
        },
    }
    bus.write_byte(addres.wrapping_add(1) as usize, ((rs2_val / 0x100) % 0x100) as u8)
}

pub fn sw(instr: &SInstruction, bus: &mut Bus, core: &mut RVCore) -> (r: Result<(), Exception>)
    requires
        old(core).wf(),
        old(bus).wf(),
        instr.wf(),
    ensures
        final(core).wf(),
        final(bus).wf(),
        store_step(SOp::Sw, *instr, old(core)@, old(bus)@, final(core)@, final(bus)@, r),
{
    let rs1_val = core.read_reg(instr.rs1);
    let rs2_val = core.read_reg(instr.rs2);
    let addres = rs1_val.wrapping_add(instr.imm);
    proof {
        crate::word::lemma_wrapping_add_w32(rs1_val, instr.imm);
        crate::word::lemma_wrapping_add_w32(addres, 1);
        crate::word::lemma_wrapping_add_w32(addres, 2);
        crate::word::lemma_wrapping_add_w32(addres, 3);
    }
    match bus.write_byte(addres as usize, (rs2_val % 0x100) as u8) {
        Ok(_) => {},
        Err(e) => {
            return Err(e);
        },
    }
    match bus.write_byte(addres.wrapping_add(1) as usize, ((rs2_val / 0x100) % 0x100) as u8) {
        Ok(_) => {},
        Err(e) => {
            return Err(e);
        },
    }
    match bus.write_byte(addres.wrapping_add(2) as usize, ((rs2_val / 0x1_0000) % 0x100) as u8) {
        Ok(_) => {},
        Err(e) => {
            return Err(e);
        },
    }
    bus.write_byte(addres.wrapping_add(3) as usize, ((rs2_val / 0x100_0000) % 0x100) as u8)
}

pub fn beq(instr: &BInstruction, core: &mut RVCore) -> (r: Result<(), Exception>)
    requires
        old(core).wf(),
        instr.wf(),
    ensures
        final(core).wf(),
        branch_step(BOp::Beq, *instr, old(core)@, final(core)@, r),
{
    let rs1_val = core.read_reg(instr.rs1);
    let rs2_val = core.read_reg(instr.rs2);
    if rs1_val == rs2_val {
        let new_pc = core.pc.wrapping_add(instr.imm);
        proof {
            crate::word::lemma_wrapping_add_w32(core.pc, instr.imm);
            crate::word::lemma_wrapping_sub_w32(new_pc, 4);
        }
        core.pc = new_pc.wrapping_sub(4);
    }

    Ok(())
}

pub fn bne(instr: &BInstruction, core: &mut RVCore) -> (r: Result<(), Exception>)
    requires
        old(core).wf(),
        instr.wf(),
    ensures
        final(core).wf(),
        branch_step(BOp::Bne, *instr, old(core)@, final(core)@, r),
{
    let rs1_val = core.read_reg(instr.rs1);
    let rs2_val = core.read_reg(instr.rs2);
    if rs1_val != rs2_val {
        let new_pc = core.pc.wrapping_add(instr.imm);
        proof {
            crate::word::lemma_wrapping_add_w32(core.pc, instr.imm);
            crate::word::lemma_wrapping_sub_w32(new_pc, 4);
        }
        core.pc = new_pc.wrapping_sub(4);
    }

    Ok(())
}

pub fn blt(instr: &BInstruction, core: &mut RVCore) -> (r: Result<(), Exception>)
    requires
        old(core).wf(),
        instr.wf(),
    ensures
        final(core).wf(),
        branch_step(BOp::Blt, *instr, old(core)@, final(core)@, r),
{
    let rs1_val = core.read_reg(instr.rs1);
    let rs2_val = core.read_reg(instr.rs2);
    if s32_val(rs1_val) < s32_val(rs2_val) {
        let new_pc = core.pc.wrapping_add(instr.imm);
        proof {
            crate::word::lemma_wrapping_add_w32(core.pc, instr.imm);
            crate::word::lemma_wrapping_sub_w32(new_pc, 4);
        }
        core.pc = new_pc.wrapping_sub(4);
    }

    Ok(())
}

pub fn bge(instr: &BInstruction, core: &mut RVCore) -> (r: Result<(), Exception>)
    requires
        old(core).wf(),
        instr.wf(),
    ensures
        final(core).wf(),
        branch_step(BOp::Bge, *instr, old(core)@, final(core)@, r),
{
    let rs1_val = core.read_reg(instr.rs1);
    let rs2_val = core.read_reg(instr.rs2);
    if s32_val(rs1_val) >= s32_val(rs2_val) {
        let new_pc = core.pc.wrapping_add(instr.imm);
        proof {
            crate::word::lemma_wrapping_add_w32(core.pc, instr.imm);
            crate::word::lemma_wrapping_sub_w32(new_pc, 4);
        }
        core.pc = new_pc.wrapping_sub(4);
    }

    Ok(())
}

pub fn bltu(instr: &BInstruction, core: &mut RVCore) -> (r: Result<(), Exception>)
    requires
        old(core).wf(),
        instr.wf(),
    ensures
        final(core).wf(),
        branch_step(BOp::Bltu, *instr, old(core)@, final(core)@, r),
{
    let rs1_val = core.read_reg(instr.rs1);
    let rs2_val = core.read_reg(instr.rs2);
    if rs1_val < rs2_val {
        let new_pc = core.pc.wrapping_add(instr.imm);
        proof {
            crate::word::lemma_wrapping_add_w32(core.pc, instr.imm);
            crate::word::lemma_wrapping_sub_w32(new_pc, 4);
        }
        core.pc = new_pc.wrapping_sub(4);
    }

    Ok(())
}

pub fn bgeu(instr: &BInstruction, core: &mut RVCore) -> (r: Result<(), Exception>)
    requires
        old(core).wf(),
        instr.wf(),
    ensures
        final(core).wf(),
        branch_step(BOp::Bgeu, *instr, old(core)@, final(core)@, r),
{
    let rs1_val = core.read_reg(instr.rs1);
    let rs2_val = core.read_reg(instr.rs2);
    if rs1_val >= rs2_val {
        let new_pc = core.pc.wrapping_add(instr.imm);
        proof {
            crate::word::lemma_wrapping_add_w32(core.pc, instr.imm);
            crate::word::lemma_wrapping_sub_w32(new_pc, 4);
        }
        core.pc = new_pc.wrapping_sub(4);
    }

    Ok(())
}

pub fn jal(instr: &JInstruction, core: &mut RVCore) -> (r: Result<(), Exception>)
    requires
        old(core).wf(),
        instr.wf(),
    ensures
        final(core).wf(),
        jal_step(*instr, old(core)@, final(core)@, r),
{
    let new_pc = core.pc.wrapping_add(instr.imm);
    proof {
        crate::word::lemma_wrapping_add_w32(core.pc, instr.imm);
        crate::word::lemma_wrapping_add_w32(core.pc, 4);
        crate::word::lemma_wrapping_sub_w32(new_pc, 4);
    }
    if new_pc % 4 != 0 {
        return Err(Exception::InstructionAddressMisaligned);
    }

    core.write_reg(instr.rd, core.pc.wrapping_add(4));
    core.pc = new_pc.wrapping_sub(4);

    Ok(())
}

pub fn jalr(instr: &IInstruction, bus: &mut Bus, core: &mut RVCore) -> (r: Result<(), Exception>)
    requires
        old(core).wf(),
        old(bus).wf(),
        instr.wf(),
    ensures
        final(core).wf(),
        final(bus).wf(),
        final(bus)@ == old(bus)@,
        jalr_step(*instr, old(core)@, final(core)@, r),
{
    let rs1_val = core.read_reg(instr.rs1);
    let t0 = rs1_val.wrapping_add(instr.imm);
    let new_pc = (t0 / 2) * 2;
    proof {
        crate::word::lemma_wrapping_add_w32(rs1_val, instr.imm);
        crate::word::lemma_wrapping_add_w32(core.pc, 4);
        crate::word::lemma_wrapping_sub_w32(new_pc, 4);
    }
    if new_pc % 4 != 0 {
        return Err(Exception::InstructionAddressMisaligned);
    }

    core.write_reg(instr.rd, core.pc.wrapping_add(4));
    core.pc = new_pc.wrapping_sub(4);

    Ok(())
}

pub fn lui(instr: &UInstruction, core: &mut RVCore) -> (r: Result<(), Exception>)
    requires
        old(core).wf(),
        instr.wf(),
    ensures
        final(core).wf(),
        u_step(UOp::Lui, *instr, old(core)@, final(core)@, r),
{
    let val = instr.imm;
    core.write_reg(instr.rd, val);
    Ok(())
}

pub fn auipc(instr: &UInstruction, core: &mut RVCore) -> (r: Result<(), Exception>)
    requires
        old(core).wf(),
        instr.wf(),
    ensures
        final(core).wf(),
        u_step(UOp::Auipc, *instr, old(core)@, final(core)@, r),
{
    proof {
        crate::word::lemma_wrapping_add_w32(core.pc, instr.imm);
    }
    let val = core.pc.wrapping_add(instr.imm);
    core.write_reg(instr.rd, val);
    Ok(())
}

/// An explicit fence is a no-op: this interpreter executes one hart's
/// accesses in program order.
pub fn fence(instr: &IInstruction, bus: &mut Bus, core: &mut RVCore) -> (r: Result<(), Exception>)
    requires
        old(core).wf(),
        old(bus).wf(),
    ensures
        final(core).wf(),
        final(bus).wf(),
        final(bus)@ == old(bus)@,
        final(core)@ == old(core)@,
        r == Ok::<(), Exception>(()),
{
    Ok(())
}

} // verus!
