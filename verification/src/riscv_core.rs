//! The execution core of one hart: the register file and program counter,
//! the typed instruction-operand model, the decoder from raw 32-bit words
//! to that model, and the trap engine. The decoder's contract pins every
//! produced operand down to `spec_decode`, the specification-level decode
//! table.

use vstd::prelude::*;

use crate::csr::{
    csr_wf, spec_csr_read, spec_csr_write_unchecked, ControlAndStatus, CsrModel, MCAUSE, MEPC,
    MHARTID, MTVAL, MTVEC,
};
use crate::exception::{priv_num, spec_cause, Exception, PrivilegeLevel, Trap};
use crate::interpreter::NUM_HARTS;
use crate::mstatus::{bool_bit, mstatus_get, mstatus_set, MStatusField};
use crate::word::{s32, tdiv, tmod, w32};

verus! {

/// Mathematical view of the core: the 31 writable registers, the program
/// counter, the CSR bank, and the current privilege level.
#[verifier::ext_equal]
pub struct CoreModel {
    pub regs: Seq<u32>,
    pub pc: u32,
    pub csr: CsrModel,
    pub privilege: PrivilegeLevel,
}

/// Well-formedness: 31 register slots and a well-formed CSR bank.
pub open spec fn core_wf(c: CoreModel) -> bool {
    &&& c.regs.len() == 31
    &&& csr_wf(c.csr)
}

/// The value register `r` reads: the hardwired zero for register 0, the
/// stored word otherwise.
pub open spec fn reg_val(c: CoreModel, r: u32) -> u32 {
    if r == 0 {
        0
    } else {
        c.regs[r as int - 1]
    }
}

/// The core after writing `v` to register `rd`: a write to register 0 is a
/// no-op, nothing but the named register changes.
pub open spec fn with_reg(c: CoreModel, rd: u32, v: u32) -> CoreModel {
    if rd == 0 {
        c
    } else {
        CoreModel { regs: c.regs.update(rd as int - 1, v), ..c }
    }
}

/// Law: writing register `r` and reading it back yields the written value,
/// except on the hardwired zero register, which always reads zero; every
/// other register is untouched.
pub proof fn lemma_reg_write_read(c: CoreModel, r: u32, v: u32, q: u32)
    requires
        core_wf(c),
        r < 32,
        q < 32,
    ensures
        r != 0 ==> reg_val(with_reg(c, r, v), r) == v,
        r == 0 ==> reg_val(with_reg(c, r, v), r) == 0,
        q != r ==> reg_val(with_reg(c, r, v), q) == reg_val(c, q),
{
}

// Operand field extraction, stated arithmetically: dividing by a power of
// two takes bits off the bottom, the modulus keeps a field of fixed width.

/// Destination register, bits 11:7.
pub open spec fn rd_of(instr: u32) -> u32 {
    (instr / 0x80) % 0x20
}

/// Minor opcode, bits 14:12.
pub open spec fn funct3_of(instr: u32) -> u32 {
    (instr / 0x1000) % 8
}

/// First source register, bits 19:15.
pub open spec fn rs1_of(instr: u32) -> u32 {
    (instr / 0x8000) % 0x20
}

/// Second source register, bits 24:20.
pub open spec fn rs2_of(instr: u32) -> u32 {
    (instr / 0x100000) % 0x20
}

/// Major function code, bits 31:25.
pub open spec fn funct7_of(instr: u32) -> u32 {
    (instr / 0x2000000) % 0x80
}

/// Atomic function code, bits 31:27.
pub open spec fn funct5_of(instr: u32) -> u32 {
    (instr / 0x8000000) % 0x20
}

/// Atomic ordering-constraint bits 26:25.
pub open spec fn aqrl_of(instr: u32) -> u32 {
    (instr / 0x2000000) % 4
}

/// The sign bit of an instruction word, replicated across all high bits of
/// every sign-extended immediate.
pub open spec fn sign_of(instr: u32) -> u32 {
    instr / 0x80000000
}

/// I-type immediate: bits 31:20, sign-extended.
pub open spec fn i_imm(instr: u32) -> u32 {
    (sign_of(instr) * 0xFFFFF800 + (instr / 0x100000) % 0x800) as u32
}

/// S-type immediate: bits 31:25 over bits 11:7, sign-extended.
pub open spec fn s_imm(instr: u32) -> u32 {
    (sign_of(instr) * 0xFFFFF800 + ((instr / 0x2000000) % 0x40) * 0x20 + (instr / 0x80)
        % 0x20) as u32
}

/// B-type immediate: bit 7 relocated to bit 11, implicit zero bit 0,
/// sign-extended.
pub open spec fn b_imm(instr: u32) -> u32 {
    (sign_of(instr) * 0xFFFFF000 + ((instr / 0x80) % 2) * 0x800 + ((instr / 0x2000000) % 0x40)
        * 0x20 + ((instr / 0x100) % 0x10) * 2) as u32
}

/// J-type immediate: bits 19:12 kept in place, bit 20 relocated to bit 11,
/// implicit zero bit 0, sign-extended.
pub open spec fn j_imm(instr: u32) -> u32 {
    (sign_of(instr) * 0xFFF00000 + ((instr / 0x1000) % 0x100) * 0x1000 + ((instr / 0x100000) % 2)
        * 0x800 + ((instr / 0x2000000) % 0x40) * 0x20 + ((instr / 0x200000) % 0x10) * 2) as u32
}

/// U-type immediate: top 20 bits in place, bottom 12 zero.
pub open spec fn u_imm(instr: u32) -> u32 {
    ((instr / 0x1000) * 0x1000) as u32
}

/// CSR selector field: bits 31:20, zero-extended.
pub open spec fn csr_of(instr: u32) -> u32 {
    instr / 0x100000
}

/// Extracts the I-type immediate.
pub fn get_i_imm_val(instr: u32) -> (r: u32)
    ensures
        r == i_imm(instr),
{
    let low: u32 = (instr / 0x100000) % 0x800;
    if instr / 0x80000000 == 1 {
        0xFFFFF800 + low
    } else {
        low
    }
}

/// Extracts the S-type immediate.
pub fn get_s_imm_val(instr: u32) -> (r: u32)
    ensures
        r == s_imm(instr),
{
    let low: u32 = ((instr / 0x2000000) % 0x40) * 0x20 + (instr / 0x80) % 0x20;
    if instr / 0x80000000 == 1 {
        0xFFFFF800 + low
    } else {
        low
    }
}

/// Extracts the B-type immediate.
pub fn get_b_imm_val(instr: u32) -> (r: u32)
    ensures
        r == b_imm(instr),
{
    let low: u32 = ((instr / 0x80) % 2) * 0x800 + ((instr / 0x2000000) % 0x40) * 0x20 + ((instr
        / 0x100) % 0x10) * 2;
    if instr / 0x80000000 == 1 {
        0xFFFFF000 + low
    } else {
        low
    }
}

/// Extracts the J-type immediate.
pub fn get_j_imm_val(instr: u32) -> (r: u32)
    ensures
        r == j_imm(instr),
{
    let low: u32 = ((instr / 0x1000) % 0x100) * 0x1000 + ((instr / 0x100000) % 2) * 0x800 + ((instr
        / 0x2000000) % 0x40) * 0x20 + ((instr / 0x200000) % 0x10) * 2;
    if instr / 0x80000000 == 1 {
        0xFFF00000 + low
    } else {
        low
    }
}

/// Extracts the U-type immediate.
pub fn get_u_imm_val(instr: u32) -> (r: u32)
    ensures
        r == u_imm(instr),
{
    (instr / 0x1000) * 0x1000
}

/// Extracts the CSR selector field.
pub fn get_csr(instr: u32) -> (r: u32)
    ensures
        r == csr_of(instr),
        r < 0x1000,
{
    instr / 0x100000
}

// The instruction-operand model: one shape per encoding format, each
// carrying its decoded fields and the mnemonic selected at decode time.

/// Register-register mnemonics.
#[derive(Clone, Copy, Debug, PartialEq, Eq, Structural)]
pub enum ROp {
    Add,
    Sub,
    Xor,
    Or,
    And,
    Sll,
    Srl,
    Sra,
    Slt,
    Sltu,
    Mul,
    Mulh,
    Mulhsu,
    Mulhu,
    Div,
    Divu,
    Rem,
    Remu,
}

/// Immediate, load, jump-register, fence and system mnemonics: everything
/// decoded into the I shape.
#[derive(Clone, Copy, Debug, PartialEq, Eq, Structural)]
pub enum IOp {
    Addi,
    Xori,
    Ori,
    Andi,
    Slli,
    Srli,
    Srai,
    Slti,
    Sltui,
    Lb,
    Lh,
    Lw,
    Lbu,
    Lhu,
    Jalr,
    Fence,
    Ecall,
    Ebreak,
    Sret,
    Mret,
    Csrrw,
    Csrrs,
    Csrrc,
    Csrrwi,
    Csrrsi,
    Csrrci,
}

/// Store mnemonics.
#[derive(Clone, Copy, Debug, PartialEq, Eq, Structural)]
pub enum SOp {
    Sb,
    Sh,
    Sw,
}

/// Branch mnemonics.
#[derive(Clone, Copy, Debug, PartialEq, Eq, Structural)]
pub enum BOp {
    Beq,
    Bne,
    Blt,
    Bge,
    Bltu,
    Bgeu,
}

/// Jump mnemonics.
#[derive(Clone, Copy, Debug, PartialEq, Eq, Structural)]
pub enum JOp {
    Jal,
}

/// Upper-immediate mnemonics.
#[derive(Clone, Copy, Debug, PartialEq, Eq, Structural)]
pub enum UOp {
    Lui,
    Auipc,
}

/// Atomic mnemonics (word-sized only).
#[derive(Clone, Copy, Debug, PartialEq, Eq, Structural)]
pub enum AOp {
    LrW,
    ScW,
    AmoswapW,
    AmoaddW,
    AmoandW,
    AmoorW,
    AmoxorW,
    AmomaxW,
    AmominW,
    AmomaxuW,
    AmominuW,
}

#[derive(Clone, Copy, Debug, PartialEq, Eq, Structural)]
pub struct RInstruction {
    pub rs1: u32,
    pub rs2: u32,
    pub rd: u32,
    pub op: ROp,
}

impl RInstruction {
    /// Register indices decoded from five-bit fields.
    pub open spec fn wf(&self) -> bool {
        self.rs1 < 32 && self.rs2 < 32 && self.rd < 32
    }

    pub fn new(rs1: u32, rs2: u32, rd: u32, op: ROp) -> (r: Self)
        ensures
            r == (RInstruction { rs1, rs2, rd, op }),
    {
        Self { rs1, rs2, rd, op }
    }
}

#[derive(Clone, Copy, Debug, PartialEq, Eq, Structural)]
pub struct IInstruction {
    pub rs1: u32,
    pub imm: u32,
    pub rd: u32,
    pub op: IOp,
}

impl IInstruction {
    /// Register indices decoded from five-bit fields; for the CSR
    /// instructions the immediate is the 12-bit register selector.
    pub open spec fn wf(&self) -> bool {
        &&& self.rs1 < 32
        &&& self.rd < 32
        &&& match self.op {
            IOp::Csrrw | IOp::Csrrs | IOp::Csrrc | IOp::Csrrwi | IOp::Csrrsi | IOp::Csrrci =>
                self.imm < 0x1000,
            _ => true,
        }
    }

    pub fn new(rs1: u32, imm: u32, rd: u32, op: IOp) -> (r: Self)
        ensures
            r == (IInstruction { rs1, imm, rd, op }),
    {
        Self { rs1, imm, rd, op }
    }
}

#[derive(Clone, Copy, Debug, PartialEq, Eq, Structural)]
pub struct SInstruction {
    pub rs1: u32,
    pub rs2: u32,
    pub imm: u32,
    pub op: SOp,
}

impl SInstruction {
    /// Register indices decoded from five-bit fields.
    pub open spec fn wf(&self) -> bool {
        self.rs1 < 32 && self.rs2 < 32
    }

    pub fn new(rs1: u32, rs2: u32, imm: u32, op: SOp) -> (r: Self)
        ensures
            r == (SInstruction { rs1, rs2, imm, op }),
    {
        Self { rs1, rs2, imm, op }
    }
}

#[derive(Clone, Copy, Debug, PartialEq, Eq, Structural)]
pub struct BInstruction {
    pub rs1: u32,
    pub rs2: u32,
    pub imm: u32,
    pub op: BOp,
}

impl BInstruction {
    /// Register indices decoded from five-bit fields.
    pub open spec fn wf(&self) -> bool {
        self.rs1 < 32 && self.rs2 < 32
    }

    pub fn new(rs1: u32, rs2: u32, imm: u32, op: BOp) -> (r: Self)
        ensures
            r == (BInstruction { rs1, rs2, imm, op }),
    {
        Self { rs1, rs2, imm, op }
    }
}

#[derive(Clone, Copy, Debug, PartialEq, Eq, Structural)]
pub struct JInstruction {
    pub imm: u32,
    pub rd: u32,
    pub op: JOp,
}

impl JInstruction {
    /// Register index decoded from a five-bit field.
    pub open spec fn wf(&self) -> bool {
        self.rd < 32
    }

    pub fn new(imm: u32, rd: u32, op: JOp) -> (r: Self)
        ensures
            r == (JInstruction { imm, rd, op }),
    {
        Self { imm, rd, op }
    }
}

#[derive(Clone, Copy, Debug, PartialEq, Eq, Structural)]
pub struct UInstruction {
    pub imm: u32,
    pub rd: u32,
    pub op: UOp,
}

impl UInstruction {
    /// Register index decoded from a five-bit field.
    pub open spec fn wf(&self) -> bool {
        self.rd < 32
    }

    pub fn new(imm: u32, rd: u32, op: UOp) -> (r: Self)
        ensures
            r == (UInstruction { imm, rd, op }),
    {
        Self { imm, rd, op }
    }
}

#[derive(Clone, Copy, Debug, PartialEq, Eq, Structural)]
pub struct AtomicInstruction {
    pub constraint_bits: u32,
    pub rs2: u32,
    pub rs1: u32,
    pub rd: u32,
    pub op: AOp,
}

impl AtomicInstruction {
    /// Register indices decoded from five-bit fields.
    pub open spec fn wf(&self) -> bool {
        self.rs1 < 32 && self.rs2 < 32 && self.rd < 32
    }

    pub fn new(constraint_bits: u32, rs1: u32, rs2: u32, rd: u32, op: AOp) -> (r: Self)
        ensures
            r == (AtomicInstruction { constraint_bits, rs2, rs1, rd, op }),
    {
        Self { constraint_bits, rs2, rs1, rd, op }
    }
}

/// A decoded instruction, tagged by encoding shape.
#[derive(Clone, Copy, Debug, PartialEq, Eq, Structural)]
pub enum InstructionType {
    R(RInstruction),
    I(IInstruction),
    S(SInstruction),
    B(BInstruction),
    J(JInstruction),
    U(UInstruction),
    Atomic(AtomicInstruction),
}

impl InstructionType {
    /// Well-formedness of the carried operands.
    pub open spec fn wf(&self) -> bool {
        match self {
            InstructionType::R(i) => i.wf(),
            InstructionType::I(i) => i.wf(),
            InstructionType::S(i) => i.wf(),
            InstructionType::B(i) => i.wf(),
            InstructionType::J(i) => i.wf(),
            InstructionType::U(i) => i.wf(),
            InstructionType::Atomic(i) => i.wf(),
        }
    }
}

// The specification-level decode table, one function per opcode group.

pub open spec fn spec_decode_r(instr: u32) -> Option<RInstruction> {
    let rs1 = rs1_of(instr);
    let rs2 = rs2_of(instr);
    let rd = rd_of(instr);
    let f3 = funct3_of(instr);
    let f7 = funct7_of(instr);
    if f3 == 0x0 && f7 == 0x00 {
        Some(RInstruction { rs1, rs2, rd, op: ROp::Add })
    } else if f3 == 0x0 && f7 == 0x01 {
        Some(RInstruction { rs1, rs2, rd, op: ROp::Mul })
    } else if f3 == 0x0 && f7 == 0x20 {
        Some(RInstruction { rs1, rs2, rd, op: ROp::Sub })
    } else if f3 == 0x1 && f7 == 0x01 {
        Some(RInstruction { rs1, rs2, rd, op: ROp::Mulh })
    } else if f3 == 0x2 && f7 == 0x01 {
        Some(RInstruction { rs1, rs2, rd, op: ROp::Mulhsu })
    } else if f3 == 0x3 && f7 == 0x01 {
        Some(RInstruction { rs1, rs2, rd, op: ROp::Mulhu })
    } else if f3 == 0x4 && f7 == 0x00 {
        Some(RInstruction { rs1, rs2, rd, op: ROp::Xor })
    } else if f3 == 0x4 && f7 == 0x01 {
        Some(RInstruction { rs1, rs2, rd, op: ROp::Div })
    } else if f3 == 0x5 && f7 == 0x01 {
        Some(RInstruction { rs1, rs2, rd, op: ROp::Divu })
    } else if f3 == 0x6 && f7 == 0x00 {
        Some(RInstruction { rs1, rs2, rd, op: ROp::Or })
    } else if f3 == 0x6 && f7 == 0x01 {
        Some(RInstruction { rs1, rs2, rd, op: ROp::Rem })
    } else if f3 == 0x7 && f7 == 0x00 {
        Some(RInstruction { rs1, rs2, rd, op: ROp::And })
    } else if f3 == 0x7 && f7 == 0x01 {
        Some(RInstruction { rs1, rs2, rd, op: ROp::Remu })
    } else if f3 == 0x1 && f7 == 0x00 {
        Some(RInstruction { rs1, rs2, rd, op: ROp::Sll })
    } else if f3 == 0x5 && f7 == 0x00 {
        Some(RInstruction { rs1, rs2, rd, op: ROp::Srl })
    } else if f3 == 0x5 && f7 == 0x20 {
        Some(RInstruction { rs1, rs2, rd, op: ROp::Sra })
    } else if f3 == 0x2 && f7 == 0x00 {
        Some(RInstruction { rs1, rs2, rd, op: ROp::Slt })
    } else if f3 == 0x3 && f7 == 0x00 {
        Some(RInstruction { rs1, rs2, rd, op: ROp::Sltu })
    } else {
        None
    }
}

pub open spec fn spec_decode_i(instr: u32) -> Option<IInstruction> {
    let rs1 = rs1_of(instr);
    let rd = rd_of(instr);
    let f3 = funct3_of(instr);
    let imm = i_imm(instr);
    if f3 == 0x0 {
        Some(IInstruction { rs1, imm, rd, op: IOp::Addi })
    } else if f3 == 0x4 {
        Some(IInstruction { rs1, imm, rd, op: IOp::Xori })
    } else if f3 == 0x6 {
        Some(IInstruction { rs1, imm, rd, op: IOp::Ori })
    } else if f3 == 0x7 {
        Some(IInstruction { rs1, imm, rd, op: IOp::Andi })
    } else if f3 == 0x1 {
        if (imm / 0x20) % 0x80 == 0x00 {
            Some(IInstruction { rs1, imm: imm % 0x20, rd, op: IOp::Slli })
        } else {
            None
        }
    } else if f3 == 0x5 {
        if (imm / 0x20) % 0x80 == 0x00 {
            Some(IInstruction { rs1, imm: imm % 0x20, rd, op: IOp::Srli })
        } else if (imm / 0x20) % 0x80 == 0x20 {
            Some(IInstruction { rs1, imm: imm % 0x20, rd, op: IOp::Srai })
        } else {
            None
        }
    } else if f3 == 0x2 {
        Some(IInstruction { rs1, imm, rd, op: IOp::Slti })
    } else {
        Some(IInstruction { rs1, imm, rd, op: IOp::Sltui })
    }
}

pub open spec fn spec_decode_load(instr: u32) -> Option<IInstruction> {
    let rs1 = rs1_of(instr);
    let rd = rd_of(instr);
    let f3 = funct3_of(instr);
    let imm = i_imm(instr);
    if f3 == 0x0 {
        Some(IInstruction { rs1, imm, rd, op: IOp::Lb })
    } else if f3 == 0x1 {
        Some(IInstruction { rs1, imm, rd, op: IOp::Lh })
    } else if f3 == 0x2 {
        Some(IInstruction { rs1, imm, rd, op: IOp::Lw })
    } else if f3 == 0x4 {
        Some(IInstruction { rs1, imm, rd, op: IOp::Lbu })
    } else if f3 == 0x5 {
        Some(IInstruction { rs1, imm, rd, op: IOp::Lhu })
    } else {
        None
    }
}

pub open spec fn spec_decode_s(instr: u32) -> Option<SInstruction> {
    let rs1 = rs1_of(instr);
    let rs2 = rs2_of(instr);
    let f3 = funct3_of(instr);
    let imm = s_imm(instr);
    if f3 == 0x0 {
        Some(SInstruction { rs1, rs2, imm, op: SOp::Sb })
    } else if f3 == 0x1 {
        Some(SInstruction { rs1, rs2, imm, op: SOp::Sh })
    } else if f3 == 0x2 {
        Some(SInstruction { rs1, rs2, imm, op: SOp::Sw })
    } else {
        None
    }
}

pub open spec fn spec_decode_b(instr: u32) -> Option<BInstruction> {
    let rs1 = rs1_of(instr);
    let rs2 = rs2_of(instr);
    let f3 = funct3_of(instr);
    let imm = b_imm(instr);
    if f3 == 0x0 {
        Some(BInstruction { rs1, rs2, imm, op: BOp::Beq })
    } else if f3 == 0x1 {
        Some(BInstruction { rs1, rs2, imm, op: BOp::Bne })
    } else if f3 == 0x4 {
        Some(BInstruction { rs1, rs2, imm, op: BOp::Blt })
    } else if f3 == 0x5 {
        Some(BInstruction { rs1, rs2, imm, op: BOp::Bge })
    } else if f3 == 0x6 {
        Some(BInstruction { rs1, rs2, imm, op: BOp::Bltu })
    } else if f3 == 0x7 {
        Some(BInstruction { rs1, rs2, imm, op: BOp::Bgeu })
    } else {
        None
    }
}

pub open spec fn spec_decode_j(instr: u32) -> Option<JInstruction> {
    Some(JInstruction { imm: j_imm(instr), rd: rd_of(instr), op: JOp::Jal })
}

pub open spec fn spec_decode_jalr(instr: u32) -> Option<IInstruction> {
    if funct3_of(instr) == 0x0 {
        Some(IInstruction { rs1: rs1_of(instr), imm: i_imm(instr), rd: rd_of(instr), op: IOp::Jalr })
    } else {
        None
    }
}

pub open spec fn spec_decode_lui(instr: u32) -> Option<UInstruction> {
    Some(UInstruction { imm: u_imm(instr), rd: rd_of(instr), op: UOp::Lui })
}

pub open spec fn spec_decode_auipc(instr: u32) -> Option<UInstruction> {
    Some(UInstruction { imm: u_imm(instr), rd: rd_of(instr), op: UOp::Auipc })
}

pub open spec fn spec_decode_atomic(instr: u32) -> Option<AtomicInstruction> {
    let rs1 = rs1_of(instr);
    let rs2 = rs2_of(instr);
    let rd = rd_of(instr);
    let f3 = funct3_of(instr);
    let f5 = funct5_of(instr);
    let cb = aqrl_of(instr);
    if f3 != 0x2 {
        None
    } else if f5 == 0x02 {
        Some(AtomicInstruction { constraint_bits: cb, rs2, rs1, rd, op: AOp::LrW })
    } else if f5 == 0x03 {
        Some(AtomicInstruction { constraint_bits: cb, rs2, rs1, rd, op: AOp::ScW })
    } else if f5 == 0x01 {
        Some(AtomicInstruction { constraint_bits: cb, rs2, rs1, rd, op: AOp::AmoswapW })
    } else if f5 == 0x00 {
        Some(AtomicInstruction { constraint_bits: cb, rs2, rs1, rd, op: AOp::AmoaddW })
    } else if f5 == 0x04 {
        Some(AtomicInstruction { constraint_bits: cb, rs2, rs1, rd, op: AOp::AmoxorW })
    } else if f5 == 0x0C {
        Some(AtomicInstruction { constraint_bits: cb, rs2, rs1, rd, op: AOp::AmoandW })
    } else if f5 == 0x08 {
        Some(AtomicInstruction { constraint_bits: cb, rs2, rs1, rd, op: AOp::AmoorW })
    } else if f5 == 0x10 {
        Some(AtomicInstruction { constraint_bits: cb, rs2, rs1, rd, op: AOp::AmominW })
    } else if f5 == 0x14 {
        Some(AtomicInstruction { constraint_bits: cb, rs2, rs1, rd, op: AOp::AmomaxW })
    } else if f5 == 0x18 {
        Some(AtomicInstruction { constraint_bits: cb, rs2, rs1, rd, op: AOp::AmominuW })
    } else if f5 == 0x1C {
        Some(AtomicInstruction { constraint_bits: cb, rs2, rs1, rd, op: AOp::AmomaxuW })
    } else {
        None
    }
}

pub open spec fn spec_decode_system(instr: u32) -> Option<IInstruction> {
    let rs1 = rs1_of(instr);
    let rd = rd_of(instr);
    let f3 = funct3_of(instr);
    let csr = csr_of(instr);
    if f3 == 0x0 {
        if csr == 0 && rs1 == 0 && rd == 0 {
            Some(IInstruction { rs1, imm: csr, rd, op: IOp::Ecall })
        } else if csr == 1 && rs1 == 0 && rd == 0 {
            Some(IInstruction { rs1, imm: csr, rd, op: IOp::Ebreak })
        } else if csr == 0x102 && rs1 == 0 && rd == 0 {
            Some(IInstruction { rs1, imm: csr, rd, op: IOp::Sret })
        } else if csr == 0x302 && rs1 == 0 && rd == 0 {
            Some(IInstruction { rs1, imm: csr, rd, op: IOp::Mret })
        } else {
            None
        }
    } else if f3 == 0x1 {
        Some(IInstruction { rs1, imm: csr, rd, op: IOp::Csrrw })
    } else if f3 == 0x2 {
        Some(IInstruction { rs1, imm: csr, rd, op: IOp::Csrrs })
    } else if f3 == 0x3 {
        Some(IInstruction { rs1, imm: csr, rd, op: IOp::Csrrc })
    } else if f3 == 0x5 {
        Some(IInstruction { rs1, imm: csr, rd, op: IOp::Csrrwi })
    } else if f3 == 0x6 {
        Some(IInstruction { rs1, imm: csr, rd, op: IOp::Csrrsi })
    } else if f3 == 0x7 {
        Some(IInstruction { rs1, imm: csr, rd, op: IOp::Csrrci })
    } else {
        None
    }
}

pub open spec fn spec_decode_fence(instr: u32) -> Option<IInstruction> {
    if funct3_of(instr) == 0 {
        Some(
            IInstruction { rs1: rs1_of(instr), imm: i_imm(instr), rd: rd_of(instr), op: IOp::Fence },
        )
    } else {
        None
    }
}

/// The decode table: the low seven opcode bits select the shape, the
/// sub-fields select the mnemonic; every unlisted combination decodes to
/// nothing.
pub open spec fn spec_decode(instr: u32) -> Option<InstructionType> {
    let opcode = instr % 0x80;
    if opcode == 0x03 {
        match spec_decode_load(instr) {
            Some(i) => Some(InstructionType::I(i)),
            None => None,
        }
    } else if opcode == 0x13 {
        match spec_decode_i(instr) {
            Some(i) => Some(InstructionType::I(i)),
            None => None,
        }
    } else if opcode == 0x17 {
        match spec_decode_auipc(instr) {
            Some(i) => Some(InstructionType::U(i)),
            None => None,
        }
    } else if opcode == 0x23 {
        match spec_decode_s(instr) {
            Some(i) => Some(InstructionType::S(i)),
            None => None,
        }
    } else if opcode == 0x2F {
        match spec_decode_atomic(instr) {
            Some(i) => Some(InstructionType::Atomic(i)),
            None => None,
        }
    } else if opcode == 0x33 {
        match spec_decode_r(instr) {
            Some(i) => Some(InstructionType::R(i)),
            None => None,
        }
    } else if opcode == 0x37 {
        match spec_decode_lui(instr) {
            Some(i) => Some(InstructionType::U(i)),
            None => None,
        }
    } else if opcode == 0x63 {
        match spec_decode_b(instr) {
            Some(i) => Some(InstructionType::B(i)),
            None => None,
        }
    } else if opcode == 0x67 {
        match spec_decode_jalr(instr) {
            Some(i) => Some(InstructionType::I(i)),
            None => None,
        }
    } else if opcode == 0x6F {
        match spec_decode_j(instr) {
            Some(i) => Some(InstructionType::J(i)),
            None => None,
        }
    } else if opcode == 0x73 {
        match spec_decode_system(instr) {
            Some(i) => Some(InstructionType::I(i)),
            None => None,
        }
    } else if opcode == 0x0F {
        match spec_decode_fence(instr) {
            Some(i) => Some(InstructionType::I(i)),
            None => None,
        }
    } else {
        None
    }
}

/// Everything the decoder produces is well-formed: register fields are
/// five bits, CSR selectors twelve.
pub proof fn lemma_decode_wf(instr: u32)
    ensures
        spec_decode(instr) matches Some(i) ==> i.wf(),
{
}

/// The execution core of one hart.
pub struct RVCore {
    // The zero register is hardwired and not stored.
    pub registers: Vec<u32>,
    pub pc: u32,
    pub control_and_status: ControlAndStatus,
    pub privilege_level: PrivilegeLevel,
}

impl View for RVCore {
    type V = CoreModel;

    open spec fn view(&self) -> CoreModel {
        CoreModel {
            regs: self.registers@,
            pc: self.pc,
            csr: self.control_and_status@,
            privilege: self.privilege_level,
        }
    }
}

impl RVCore {
    /// Well-formedness of the core.
    pub open spec fn wf(&self) -> bool {
        core_wf(self@)
    }

    /// A core at reset: zeroed registers, the program counter at the DRAM
    /// base, a CSR bank at reset for hart 0, and Machine privilege.
    pub fn new() -> (r: Self)
        ensures
            r.wf(),
            forall|j: int| 0 <= j < 31 ==> r@.regs[j] == 0,
            r@.pc == 0x80000000u32,
            r@.privilege == PrivilegeLevel::Machine,
            forall|i: int|
                0 <= i < 4096 && i != crate::csr::MISA as int && i != MHARTID as int
                    ==> r@.csr.regs[i] == 0,
            r@.csr.regs[crate::csr::MISA as int] == crate::csr::MISA_RESET,
            r@.csr.regs[MHARTID as int] == 0,
            r@.csr.mstatus == mstatus_set(0, MStatusField::Mpp, 3),
            !r@.csr.minstret_loaded,
    {
        let mut registers: Vec<u32> = Vec::new();
        let mut i: usize = 0;
        while i < 31
            invariant
                i <= 31,
                registers@.len() == i as int,
                forall|j: int| 0 <= j < i as int ==> registers@[j] == 0,
            decreases 31 - i,
        {
            registers.push(0);
            i += 1;
        }
        Self {
            registers,
            pc: 0x80000000,
            control_and_status: ControlAndStatus::new(0),
            privilege_level: PrivilegeLevel::Machine,
        }
    }

    /// Reads a general-purpose register; register 0 always reads zero.
    pub fn read_reg(&self, reg: u32) -> (r: u32)
        requires
            self.wf(),
            reg < 32,
        ensures
            r == reg_val(self@, reg),
    {
        if reg == 0 {
            0
        } else {
            self.registers[(reg - 1) as usize]
        }
    }

    /// Writes a general-purpose register; a write to register 0 is a
    /// no-op.
    pub fn write_reg(&mut self, reg: u32, val: u32)
        requires
            old(self).wf(),
            reg < 32,
        ensures
            final(self).wf(),
            final(self)@ == with_reg(old(self)@, reg, val),
    {
        if reg != 0 {
            self.registers.set((reg - 1) as usize, val);
        }
    }

    /// The hart identifier, read through the privilege-checked CSR path:
    /// only Machine mode may ask.
    pub fn read_hartid(&self) -> (r: Result<usize, Exception>)
        requires
            self.wf(),
        ensures
            priv_num(self@.privilege) == 3 ==> r == Ok::<usize, Exception>(
                self@.csr.regs[MHARTID as int] as usize,
            ) && self@.csr.regs[MHARTID as int] < NUM_HARTS as u32,
            priv_num(self@.privilege) < 3 ==> r == Err::<usize, Exception>(
                Exception::IllegalInstruction(0),
            ),
    {
        match self.control_and_status.read_csr(MHARTID, self.privilege_level) {
            Ok(x) => Ok(x as usize),
            Err(e) => Err(e),
        }
    }

    fn try_decode_r_instr(&mut self, instr: u32) -> (r: Option<RInstruction>)
        ensures
            r == spec_decode_r(instr),
            final(self)@ == old(self)@,
    {
        let rd = (instr / 0x80) % 0x20;
        let funct3 = (instr / 0x1000) % 8;
        let rs1 = (instr / 0x8000) % 0x20;
        let rs2 = (instr / 0x100000) % 0x20;
        let funct7 = (instr / 0x2000000) % 0x80;

        match (funct3, funct7) {
            (0x0, 0x00) => Some(RInstruction::new(rs1, rs2, rd, ROp::Add)),
            (0x0, 0x01) => Some(RInstruction::new(rs1, rs2, rd, ROp::Mul)),
            (0x0, 0x20) => Some(RInstruction::new(rs1, rs2, rd, ROp::Sub)),
            (0x1, 0x01) => Some(RInstruction::new(rs1, rs2, rd, ROp::Mulh)),
            (0x2, 0x01) => Some(RInstruction::new(rs1, rs2, rd, ROp::Mulhsu)),
            (0x3, 0x01) => Some(RInstruction::new(rs1, rs2, rd, ROp::Mulhu)),
            (0x4, 0x00) => Some(RInstruction::new(rs1, rs2, rd, ROp::Xor)),
            (0x4, 0x01) => Some(RInstruction::new(rs1, rs2, rd, ROp::Div)),
            (0x5, 0x01) => Some(RInstruction::new(rs1, rs2, rd, ROp::Divu)),
            (0x6, 0x00) => Some(RInstruction::new(rs1, rs2, rd, ROp::Or)),
            (0x6, 0x01) => Some(RInstruction::new(rs1, rs2, rd, ROp::Rem)),
            (0x7, 0x00) => Some(RInstruction::new(rs1, rs2, rd, ROp::And)),
            (0x7, 0x01) => Some(RInstruction::new(rs1, rs2, rd, ROp::Remu)),
            (0x1, 0x00) => Some(RInstruction::new(rs1, rs2, rd, ROp::Sll)),
            (0x5, 0x00) => Some(RInstruction::new(rs1, rs2, rd, ROp::Srl)),
            (0x5, 0x20) => Some(RInstruction::new(rs1, rs2, rd, ROp::Sra)),
            (0x2, 0x00) => Some(RInstruction::new(rs1, rs2, rd, ROp::Slt)),
            (0x3, 0x00) => Some(RInstruction::new(rs1, rs2, rd, ROp::Sltu)),
            _ => None,
        }
    }

    fn try_decode_i_instr(&mut self, instr: u32) -> (r: Option<IInstruction>)
        ensures
            r == spec_decode_i(instr),
            final(self)@ == old(self)@,
    {
        let rd = (instr / 0x80) % 0x20;
        let funct3 = (instr / 0x1000) % 8;
        let rs1 = (instr / 0x8000) % 0x20;
        let imm_val = get_i_imm_val(instr);

        match funct3 {
            0x0 => Some(IInstruction::new(rs1, imm_val, rd, IOp::Addi)),
            0x4 => Some(IInstruction::new(rs1, imm_val, rd, IOp::Xori)),
            0x6 => Some(IInstruction::new(rs1, imm_val, rd, IOp::Ori)),
            0x7 => Some(IInstruction::new(rs1, imm_val, rd, IOp::Andi)),
            0x1 => {
                if (imm_val / 0x20) % 0x80 == 0x00 {
                    Some(IInstruction::new(rs1, imm_val % 0x20, rd, IOp::Slli))
                } else {
                    None
                }
            },
            0x5 => {
                if (imm_val / 0x20) % 0x80 == 0x00 {
                    Some(IInstruction::new(rs1, imm_val % 0x20, rd, IOp::Srli))
                } else if (imm_val / 0x20) % 0x80 == 0x20 {
                    Some(IInstruction::new(rs1, imm_val % 0x20, rd, IOp::Srai))
                } else {
                    None
                }
            },
            0x2 => Some(IInstruction::new(rs1, imm_val, rd, IOp::Slti)),
            _ => Some(IInstruction::new(rs1, imm_val, rd, IOp::Sltui)),
        }
    }

    fn try_decode_load_instr(&mut self, instr: u32) -> (r: Option<IInstruction>)
        ensures
            r == spec_decode_load(instr),
            final(self)@ == old(self)@,
    {
        let rd = (instr / 0x80) % 0x20;
        let funct3 = (instr / 0x1000) % 8;
        let rs1 = (instr / 0x8000) % 0x20;
        let imm_val = get_i_imm_val(instr);

        match funct3 {
            0x0 => Some(IInstruction::new(rs1, imm_val, rd, IOp::Lb)),
            0x1 => Some(IInstruction::new(rs1, imm_val, rd, IOp::Lh)),
            0x2 => Some(IInstruction::new(rs1, imm_val, rd, IOp::Lw)),
            0x4 => Some(IInstruction::new(rs1, imm_val, rd, IOp::Lbu)),
            0x5 => Some(IInstruction::new(rs1, imm_val, rd, IOp::Lhu)),
            _ => None,
        }
    }

    fn try_decode_s_instr(&mut self, instr: u32) -> (r: Option<SInstruction>)
        ensures
            r == spec_decode_s(instr),
            final(self)@ == old(self)@,
    {
        let funct3 = (instr / 0x1000) % 8;
        let rs1 = (instr / 0x8000) % 0x20;
        let rs2 = (instr / 0x100000) % 0x20;
        let imm_val = get_s_imm_val(instr);

        match funct3 {
            0x0 => Some(SInstruction::new(rs1, rs2, imm_val, SOp::Sb)),
            0x1 => Some(SInstruction::new(rs1, rs2, imm_val, SOp::Sh)),
            0x2 => Some(SInstruction::new(rs1, rs2, imm_val, SOp::Sw)),
            _ => None,
        }
    }

    fn try_decode_b_instr(&mut self, instr: u32) -> (r: Option<BInstruction>)
        ensures
            r == spec_decode_b(instr),
            final(self)@ == old(self)@,
    {
        let funct3 = (instr / 0x1000) % 8;
        let rs1 = (instr / 0x8000) % 0x20;
        let rs2 = (instr / 0x100000) % 0x20;
        let imm_val = get_b_imm_val(instr);

        match funct3 {
            0x0 => Some(BInstruction::new(rs1, rs2, imm_val, BOp::Beq)),
            0x1 => Some(BInstruction::new(rs1, rs2, imm_val, BOp::Bne)),
            0x4 => Some(BInstruction::new(rs1, rs2, imm_val, BOp::Blt)),
            0x5 => Some(BInstruction::new(rs1, rs2, imm_val, BOp::Bge)),
            0x6 => Some(BInstruction::new(rs1, rs2, imm_val, BOp::Bltu)),
            0x7 => Some(BInstruction::new(rs1, rs2, imm_val, BOp::Bgeu)),
            _ => None,
        }
    }

    fn try_decode_j_instr(&mut self, instr: u32) -> (r: Option<JInstruction>)
        ensures
            r == spec_decode_j(instr),
            final(self)@ == old(self)@,
    {
        let rd = (instr / 0x80) % 0x20;
        let imm_val = get_j_imm_val(instr);

        Some(JInstruction::new(imm_val, rd, JOp::Jal))
    }

    fn try_decode_jalr_instr(&mut self, instr: u32) -> (r: Option<IInstruction>)
        ensures
            r == spec_decode_jalr(instr),
            final(self)@ == old(self)@,
    {
        let rd = (instr / 0x80) % 0x20;
        let funct3 = (instr / 0x1000) % 8;
        let rs1 = (instr / 0x8000) % 0x20;
        let imm_val = get_i_imm_val(instr);

        if funct3 == 0x0 {
            Some(IInstruction::new(rs1, imm_val, rd, IOp::Jalr))
        } else {
            None
        }
    }

    fn try_decode_lui_instr(&mut self, instr: u32) -> (r: Option<UInstruction>)
        ensures
            r == spec_decode_lui(instr),
            final(self)@ == old(self)@,
    {
        let rd = (instr / 0x80) % 0x20;
        let imm_val = get_u_imm_val(instr);

        Some(UInstruction::new(imm_val, rd, UOp::Lui))
    }

    fn try_decode_auipc_instr(&mut self, instr: u32) -> (r: Option<UInstruction>)
        ensures
            r == spec_decode_auipc(instr),
            final(self)@ == old(self)@,
    {
        let rd = (instr / 0x80) % 0x20;
        let imm_val = get_u_imm_val(instr);

        Some(UInstruction::new(imm_val, rd, UOp::Auipc))
    }

    fn try_decode_atomic_instr(&mut self, instr: u32) -> (r: Option<AtomicInstruction>)
        ensures
            r == spec_decode_atomic(instr),
            final(self)@ == old(self)@,
    {
        let rd = (instr / 0x80) % 0x20;
        let funct3 = (instr / 0x1000) % 8;
        let rs1 = (instr / 0x8000) % 0x20;
        let rs2 = (instr / 0x100000) % 0x20;
        let constraint_bits = (instr / 0x2000000) % 4;
        let funct5 = (instr / 0x8000000) % 0x20;

        match (funct5, funct3) {
            (0x02, 0x2) => Some(AtomicInstruction::new(constraint_bits, rs1, rs2, rd, AOp::LrW)),
            (0x03, 0x2) => Some(AtomicInstruction::new(constraint_bits, rs1, rs2, rd, AOp::ScW)),
            (0x01, 0x2) => Some(
                AtomicInstruction::new(constraint_bits, rs1, rs2, rd, AOp::AmoswapW),
            ),
            (0x00, 0x2) => Some(AtomicInstruction::new(constraint_bits, rs1, rs2, rd, AOp::AmoaddW)),
            (0x04, 0x2) => Some(AtomicInstruction::new(constraint_bits, rs1, rs2, rd, AOp::AmoxorW)),
            (0x0C, 0x2) => Some(AtomicInstruction::new(constraint_bits, rs1, rs2, rd, AOp::AmoandW)),
            (0x08, 0x2) => Some(AtomicInstruction::new(constraint_bits, rs1, rs2, rd, AOp::AmoorW)),
            (0x10, 0x2) => Some(AtomicInstruction::new(constraint_bits, rs1, rs2, rd, AOp::AmominW)),
            (0x14, 0x2) => Some(AtomicInstruction::new(constraint_bits, rs1, rs2, rd, AOp::AmomaxW)),
            (0x18, 0x2) => Some(
                AtomicInstruction::new(constraint_bits, rs1, rs2, rd, AOp::AmominuW),
            ),
            (0x1C, 0x2) => Some(
                AtomicInstruction::new(constraint_bits, rs1, rs2, rd, AOp::AmomaxuW),
            ),
            _ => None,
        }
    }

    fn try_decode_system_instr(&mut self, instr: u32) -> (r: Option<IInstruction>)
        ensures
            r == spec_decode_system(instr),
            final(self)@ == old(self)@,
    {
        let rd = (instr / 0x80) % 0x20;
        let funct3 = (instr / 0x1000) % 8;
        let rs1 = (instr / 0x8000) % 0x20;
        let csr = get_csr(instr);

        match funct3 {
            0x0 => match (csr, rs1, rd) {
                (0, 0, 0) => Some(IInstruction::new(rs1, csr, rd, IOp::Ecall)),
                (1, 0, 0) => Some(IInstruction::new(rs1, csr, rd, IOp::Ebreak)),
                // These are R-shaped in the encoding tables, but carrying
                // them in the I shape keeps one system decoder.
                (0x102, 0, 0) => Some(IInstruction::new(rs1, csr, rd, IOp::Sret)),
                (0x302, 0, 0) => Some(IInstruction::new(rs1, csr, rd, IOp::Mret)),
                _ => None,
            },
            0x1 => Some(IInstruction::new(rs1, csr, rd, IOp::Csrrw)),
            0x2 => Some(IInstruction::new(rs1, csr, rd, IOp::Csrrs)),
            0x3 => Some(IInstruction::new(rs1, csr, rd, IOp::Csrrc)),
            0x5 => Some(IInstruction::new(rs1, csr, rd, IOp::Csrrwi)),
            0x6 => Some(IInstruction::new(rs1, csr, rd, IOp::Csrrsi)),
            0x7 => Some(IInstruction::new(rs1, csr, rd, IOp::Csrrci)),
            _ => None,
        }
    }

    fn try_decode_fence_instr(&mut self, instr: u32) -> (r: Option<IInstruction>)
        ensures
            r == spec_decode_fence(instr),
            final(self)@ == old(self)@,
    {
        let rd = (instr / 0x80) % 0x20;
        let funct3 = (instr / 0x1000) % 8;
        let rs1 = (instr / 0x8000) % 0x20;
        let imm_val = get_i_imm_val(instr);

        if funct3 == 0 {
            Some(IInstruction::new(rs1, imm_val, rd, IOp::Fence))
        } else {
            None
        }
    }

    /// Decodes a raw instruction word per `spec_decode`; an unlisted
    /// encoding yields nothing and is surfaced as illegal-instruction by
    /// the run loop.
    pub fn decode(&mut self, instr: u32) -> (r: Option<InstructionType>)
        ensures
            r == spec_decode(instr),
            r matches Some(i) ==> i.wf(),
            final(self)@ == old(self)@,
    {
        proof {
            lemma_decode_wf(instr);
        }
        let opcode = instr % 0x80;

        match opcode {
            0x03 => match self.try_decode_load_instr(instr) {
                Some(i) => Some(InstructionType::I(i)),
                None => None,
            },
            0x13 => match self.try_decode_i_instr(instr) {
                Some(i) => Some(InstructionType::I(i)),
                None => None,
            },
            0x17 => match self.try_decode_auipc_instr(instr) {
                Some(i) => Some(InstructionType::U(i)),
                None => None,
            },
            0x23 => match self.try_decode_s_instr(instr) {
                Some(i) => Some(InstructionType::S(i)),
                None => None,
            },
            0x2F => match self.try_decode_atomic_instr(instr) {
                Some(i) => Some(InstructionType::Atomic(i)),
                None => None,
            },
            0x33 => match self.try_decode_r_instr(instr) {
                Some(i) => Some(InstructionType::R(i)),
                None => None,
            },
            0x37 => match self.try_decode_lui_instr(instr) {
                Some(i) => Some(InstructionType::U(i)),
                None => None,
            },
            0x63 => match self.try_decode_b_instr(instr) {
                Some(i) => Some(InstructionType::B(i)),
                None => None,
            },
            0x67 => match self.try_decode_jalr_instr(instr) {
                Some(i) => Some(InstructionType::I(i)),
                None => None,
            },
            0x6F => match self.try_decode_j_instr(instr) {
                Some(i) => Some(InstructionType::J(i)),
                None => None,
            },
            0x73 => match self.try_decode_system_instr(instr) {
                Some(i) => Some(InstructionType::I(i)),
                None => None,
            },
            0x0F => match self.try_decode_fence_instr(instr) {
                Some(i) => Some(InstructionType::I(i)),
                None => None,
            },
            _ => None,
        }
    }
}

/// The value a register-register instruction writes to its destination,
/// for each mnemonic: wrapping arithmetic, bitwise logic, shifts by the
/// low five bits of the second operand, signed and unsigned comparison,
/// the four multiply words, and the division family with its fixed
/// division-by-zero and overflow results.
pub open spec fn spec_r_op(op: ROp, a: u32, b: u32) -> u32 {
    match op {
        ROp::Add => w32(a + b),
        ROp::Sub => w32(a - b),
        ROp::Xor => a ^ b,
        ROp::Or => a | b,
        ROp::And => a & b,
        ROp::Sll => a << (b % 32),
        ROp::Srl => a >> (b % 32),
        ROp::Sra => (((a as i32) >> (b % 32)) as u32),
        ROp::Slt => if s32(a) < s32(b) {
            1
        } else {
            0
        },
        ROp::Sltu => if a < b {
            1
        } else {
            0
        },
        ROp::Mul => w32(a * b),
        ROp::Mulh => w32((s32(a) * s32(b)) / 0x1_0000_0000),
        ROp::Mulhsu => w32((s32(a) * b) / 0x1_0000_0000),
        ROp::Mulhu => w32((a * b) / 0x1_0000_0000),
        ROp::Div => if b == 0 {
            0xFFFFFFFFu32
        } else if a == 0x80000000u32 && b == 0xFFFFFFFFu32 {
            0x80000000u32
        } else {
            w32(tdiv(s32(a), s32(b)))
        },
        ROp::Divu => if b == 0 {
            0xFFFFFFFFu32
        } else {
            a / b
        },
        ROp::Rem => if b == 0 {
            a
        } else if a == 0x80000000u32 && b == 0xFFFFFFFFu32 {
            0
        } else {
            w32(tmod(s32(a), s32(b)))
        },
        ROp::Remu => if b == 0 {
            a
        } else {
            a % b
        },
    }
}

/// The value an immediate-ALU instruction writes to its destination. Only
/// the arithmetic-immediate mnemonics are listed; the loads, jumps and
/// system instructions have their own step relations.
pub open spec fn spec_i_alu(op: IOp, a: u32, imm: u32) -> u32 {
    match op {
        IOp::Addi => w32(a + imm),
        IOp::Xori => a ^ imm,
        IOp::Ori => a | imm,
        IOp::Andi => a & imm,
        IOp::Slli => a << (imm % 32),
        IOp::Srli => a >> (imm % 32),
        IOp::Srai => (((a as i32) >> (imm % 32)) as u32),
        IOp::Slti => if s32(a) < s32(imm) {
            1
        } else {
            0
        },
        IOp::Sltui => if a < imm {
            1
        } else {
            0
        },
        _ => 0,
    }
}

/// Whether a branch with mnemonic `op` is taken on operands `a`, `b`.
pub open spec fn b_cond(op: BOp, a: u32, b: u32) -> bool {
    match op {
        BOp::Beq => a == b,
        BOp::Bne => a != b,
        BOp::Blt => s32(a) < s32(b),
        BOp::Bge => s32(a) >= s32(b),
        BOp::Bltu => a < b,
        BOp::Bgeu => a >= b,
    }
}

/// Step relation of one I-shaped instruction, by mnemonic: ALU work on
/// the immediate, loads, the register jump, the fence no-op, the
/// environment/breakpoint faults, the trap returns, and the CSR
/// read-modify-writes.
pub open spec fn i_step(
    i: IInstruction,
    c0: CoreModel,
    b0: crate::bus::BusModel,
    c1: CoreModel,
    b1: crate::bus::BusModel,
    r: Result<(), Exception>,
) -> bool {
    match i.op {
        IOp::Addi | IOp::Xori | IOp::Ori | IOp::Andi | IOp::Slli | IOp::Srli | IOp::Srai
            | IOp::Slti | IOp::Sltui => b1 == b0 && crate::rv32i::i_alu_step(i.op, i, c0, c1, r),
        IOp::Lb | IOp::Lh | IOp::Lw | IOp::Lbu | IOp::Lhu => crate::rv32i::load_step(
            i.op,
            i,
            c0,
            b0,
            c1,
            b1,
            r,
        ),
        IOp::Jalr => b1 == b0 && crate::rv32i::jalr_step(i, c0, c1, r),
        IOp::Fence => b1 == b0 && c1 == c0 && r == Ok::<(), Exception>(()),
        IOp::Ecall => b1 == b0 && c1 == c0 && r == Err::<(), Exception>(
            match c0.privilege {
                PrivilegeLevel::Machine => Exception::EnviromentCallFromMMode,
                PrivilegeLevel::Supervisor => Exception::EnviromentCallFromSMode,
                PrivilegeLevel::User => Exception::EnviromentCallFromUMode,
            },
        ),
        IOp::Ebreak => b1 == b0 && c1 == c0 && r == Err::<(), Exception>(Exception::Breakpoint),
        IOp::Sret => b1 == b0 && c1 == c0 && r == Ok::<(), Exception>(()),
        IOp::Mret => b1 == b0 && crate::rv32privileged::mret_step(c0, c1, r),
        IOp::Csrrw => b1 == b0 && crate::rv32zicrs::csrrw_step(i, c0, c1, r),
        IOp::Csrrs => b1 == b0 && crate::rv32zicrs::csrrs_step(i, c0, c1, r),
        IOp::Csrrc => b1 == b0 && crate::rv32zicrs::csrrc_step(i, c0, c1, r),
        IOp::Csrrwi => b1 == b0 && crate::rv32zicrs::csrrwi_step(i, c0, c1, r),
        IOp::Csrrsi => b1 == b0 && crate::rv32zicrs::csrrsi_step(i, c0, c1, r),
        IOp::Csrrci => b1 == b0 && crate::rv32zicrs::csrrci_step(i, c0, c1, r),
    }
}

/// Step relation of one decoded instruction: what executing it does to
/// the core, the bus, and the returned outcome.
pub open spec fn instr_step(
    t: InstructionType,
    c0: CoreModel,
    b0: crate::bus::BusModel,
    c1: CoreModel,
    b1: crate::bus::BusModel,
    r: Result<(), Exception>,
) -> bool {
    match t {
        InstructionType::R(i) => b1 == b0 && crate::rv32i::r_step(i.op, i, c0, c1, r),
        InstructionType::I(i) => i_step(i, c0, b0, c1, b1, r),
        InstructionType::S(i) => crate::rv32i::store_step(i.op, i, c0, b0, c1, b1, r),
        InstructionType::B(i) => b1 == b0 && crate::rv32i::branch_step(i.op, i, c0, c1, r),
        InstructionType::J(i) => b1 == b0 && crate::rv32i::jal_step(i, c0, c1, r),
        InstructionType::U(i) => b1 == b0 && crate::rv32i::u_step(i.op, i, c0, c1, r),
        InstructionType::Atomic(i) => match i.op {
            AOp::LrW => crate::rv32a::lr_step(i, c0, b0, c1, b1, r),
            AOp::ScW => crate::rv32a::sc_step(i, c0, b0, c1, b1, r),
            _ => crate::rv32a::amo_step(i.op, i, c0, b0, c1, b1, r),
        },
    }
}

impl RInstruction {
    /// Executes this instruction by its mnemonic.
    pub fn execute(&self, core: &mut RVCore) -> (r: Result<(), Exception>)
        requires
            old(core).wf(),
            self.wf(),
        ensures
            final(core).wf(),
            crate::rv32i::r_step(self.op, *self, old(core)@, final(core)@, r),
    {
        match self.op {
            ROp::Add => crate::rv32i::add(self, core),
            ROp::Sub => crate::rv32i::sub(self, core),
            ROp::Xor => crate::rv32i::xor(self, core),
            ROp::Or => crate::rv32i::or(self, core),
            ROp::And => crate::rv32i::and(self, core),
            ROp::Sll => crate::rv32i::sll(self, core),
            ROp::Srl => crate::rv32i::srl(self, core),
            ROp::Sra => crate::rv32i::sra(self, core),
            ROp::Slt => crate::rv32i::slt(self, core),
            ROp::Sltu => crate::rv32i::sltu(self, core),
            ROp::Mul => crate::rv32m::mul(self, core),
            ROp::Mulh => crate::rv32m::mulh(self, core),
            ROp::Mulhsu => crate::rv32m::mulhsu(self, core),
            ROp::Mulhu => crate::rv32m::mulhu(self, core),
            ROp::Div => crate::rv32m::div(self, core),
            ROp::Divu => crate::rv32m::divu(self, core),
            ROp::Rem => crate::rv32m::rem(self, core),
            ROp::Remu => crate::rv32m::remu(self, core),
        }
    }
}

impl IInstruction {
    /// Executes this instruction by its mnemonic.
    pub fn execute(&self, bus: &mut crate::bus::Bus, core: &mut RVCore) -> (r: Result<
        (),
        Exception,
    >)
        requires
            old(core).wf(),
            old(bus).wf(),
            self.wf(),
        ensures
            final(core).wf(),
            final(bus).wf(),
            i_step(*self, old(core)@, old(bus)@, final(core)@, final(bus)@, r),
    {
        match self.op {
            IOp::Addi => crate::rv32i::addi(self, bus, core),
            IOp::Xori => crate::rv32i::xori(self, bus, core),
            IOp::Ori => crate::rv32i::ori(self, bus, core),
            IOp::Andi => crate::rv32i::andi(self, bus, core),
            IOp::Slli => crate::rv32i::slli(self, bus, core),
            IOp::Srli => crate::rv32i::srli(self, bus, core),
            IOp::Srai => crate::rv32i::srai(self, bus, core),
            IOp::Slti => crate::rv32i::slti(self, bus, core),
            IOp::Sltui => crate::rv32i::sltui(self, bus, core),
            IOp::Lb => crate::rv32i::lb(self, bus, core),
            IOp::Lh => crate::rv32i::lh(self, bus, core),
            IOp::Lw => crate::rv32i::lw(self, bus, core),
            IOp::Lbu => crate::rv32i::lbu(self, bus, core),
            IOp::Lhu => crate::rv32i::lhu(self, bus, core),
            IOp::Jalr => crate::rv32i::jalr(self, bus, core),
            IOp::Fence => crate::rv32i::fence(self, bus, core),
            IOp::Ecall => crate::rv32privileged::ecall(self, bus, core),
            IOp::Ebreak => crate::rv32privileged::ebreak(self, bus, core),
            IOp::Sret => crate::rv32privileged::sret(self, bus, core),
            IOp::Mret => crate::rv32privileged::mret(self, bus, core),
            IOp::Csrrw => crate::rv32zicrs::csrrw(self, bus, core),
            IOp::Csrrs => crate::rv32zicrs::csrrs(self, bus, core),
            IOp::Csrrc => crate::rv32zicrs::csrrc(self, bus, core),
            IOp::Csrrwi => crate::rv32zicrs::csrrwi(self, bus, core),
            IOp::Csrrsi => crate::rv32zicrs::csrrsi(self, bus, core),
            IOp::Csrrci => crate::rv32zicrs::csrrci(self, bus, core),
        }
    }
}

impl SInstruction {
    /// Executes this instruction by its mnemonic.
    pub fn execute(&self, bus: &mut crate::bus::Bus, core: &mut RVCore) -> (r: Result<
        (),
        Exception,
    >)
        requires
            old(core).wf(),
            old(bus).wf(),
            self.wf(),
        ensures
            final(core).wf(),
            final(bus).wf(),
            crate::rv32i::store_step(
                self.op,
                *self,
                old(core)@,
                old(bus)@,
                final(core)@,
                final(bus)@,
                r,
            ),
    {
        match self.op {
            SOp::Sb => crate::rv32i::sb(self, bus, core),
            SOp::Sh => crate::rv32i::sh(self, bus, core),
            SOp::Sw => crate::rv32i::sw(self, bus, core),
        }
    }
}

impl BInstruction {
    /// Executes this instruction by its mnemonic.
    pub fn execute(&self, core: &mut RVCore) -> (r: Result<(), Exception>)
        requires
            old(core).wf(),
            self.wf(),
        ensures
            final(core).wf(),
            crate::rv32i::branch_step(self.op, *self, old(core)@, final(core)@, r),
    {
        match self.op {
            BOp::Beq => crate::rv32i::beq(self, core),
            BOp::Bne => crate::rv32i::bne(self, core),
            BOp::Blt => crate::rv32i::blt(self, core),
            BOp::Bge => crate::rv32i::bge(self, core),
            BOp::Bltu => crate::rv32i::bltu(self, core),
            BOp::Bgeu => crate::rv32i::bgeu(self, core),
        }
    }
}

impl JInstruction {
    /// Executes this instruction by its mnemonic.
    pub fn execute(&self, core: &mut RVCore) -> (r: Result<(), Exception>)
        requires
            old(core).wf(),
            self.wf(),
        ensures
            final(core).wf(),
            crate::rv32i::jal_step(*self, old(core)@, final(core)@, r),
    {
        match self.op {
            JOp::Jal => crate::rv32i::jal(self, core),
        }
    }
}

impl UInstruction {
    /// Executes this instruction by its mnemonic.
    pub fn execute(&self, core: &mut RVCore) -> (r: Result<(), Exception>)
        requires
            old(core).wf(),
            self.wf(),
        ensures
            final(core).wf(),
            crate::rv32i::u_step(self.op, *self, old(core)@, final(core)@, r),
    {
        match self.op {
            UOp::Lui => crate::rv32i::lui(self, core),
            UOp::Auipc => crate::rv32i::auipc(self, core),
        }
    }
}

impl AtomicInstruction {
    /// Executes this instruction by its mnemonic.
    pub fn execute(&self, bus: &mut crate::bus::Bus, core: &mut RVCore) -> (r: Result<
        (),
        Exception,
    >)
        requires
            old(core).wf(),
            old(bus).wf(),
            self.wf(),
        ensures
            final(core).wf(),
            final(bus).wf(),
            instr_step(
                InstructionType::Atomic(*self),
                old(core)@,
                old(bus)@,
                final(core)@,
                final(bus)@,
                r,
            ),
    {
        match self.op {
            AOp::LrW => crate::rv32a::lr_w(self, bus, core),
            AOp::ScW => crate::rv32a::sc_w(self, bus, core),
            AOp::AmoswapW => crate::rv32a::amoswap_w(self, bus, core),
            AOp::AmoaddW => crate::rv32a::amoadd_w(self, bus, core),
            AOp::AmoandW => crate::rv32a::amoand_w(self, bus, core),
            AOp::AmoorW => crate::rv32a::amoor_w(self, bus, core),
            AOp::AmoxorW => crate::rv32a::amoxor_w(self, bus, core),
            AOp::AmomaxW => crate::rv32a::amomax_w(self, bus, core),
            AOp::AmominW => crate::rv32a::amomin_w(self, bus, core),
            AOp::AmomaxuW => crate::rv32a::amomaxu_w(self, bus, core),
            AOp::AmominuW => crate::rv32a::amominu_w(self, bus, core),
        }
    }
}

impl InstructionType {
    /// Executes the decoded instruction against the bus and the core, per
    /// `instr_step`.
    pub fn execute(&self, bus: &mut crate::bus::Bus, core: &mut RVCore) -> (r: Result<
        (),
        Exception,
    >)
        requires
            old(core).wf(),
            old(bus).wf(),
            self.wf(),
        ensures
            final(core).wf(),
            final(bus).wf(),
            instr_step(*self, old(core)@, old(bus)@, final(core)@, final(bus)@, r),
    {
        match self {
            Self::R(instr) => instr.execute(core),
            Self::I(instr) => instr.execute(bus, core),
            Self::S(instr) => instr.execute(bus, core),
            Self::B(instr) => instr.execute(core),
            Self::J(instr) => instr.execute(core),
            Self::U(instr) => instr.execute(core),
            Self::Atomic(instr) => instr.execute(bus, core),
        }
    }
}

/// The core state after the trap engine handled exception `e` at core
/// state `c`: privilege escalates to Machine; the faulting program counter,
/// the cause code and a zero trap value land in their CSRs; `mstatus`
/// saves the interrupted privilege and interrupt-enable and masks
/// interrupts; and the program counter is redirected through the trap
/// vector — to its base in direct mode, to base plus four times the cause
/// in vectored mode.
pub open spec fn spec_trap(e: Exception, c: CoreModel) -> CoreModel {
    let cause = spec_cause(e);
    let csr1 = spec_csr_write_unchecked(c.csr, MEPC, c.pc);
    let csr2 = spec_csr_write_unchecked(csr1, MCAUSE, cause);
    let csr3 = spec_csr_write_unchecked(csr2, MTVAL, 0);
    let m0 = csr3.mstatus;
    let m1 = mstatus_set(m0, MStatusField::Mpp, priv_num(c.privilege));
    let m2 = mstatus_set(m1, MStatusField::Mpie, bool_bit(mstatus_get(m1, MStatusField::Mie) == 1));
    let m3 = mstatus_set(m2, MStatusField::Mie, 0);
    let mtvec = spec_csr_read(csr3, MTVEC);
    let base = (mtvec - mtvec % 4) as u32;
    let new_pc = if mtvec % 4 == 0 {
        base
    } else {
        w32(base + 4 * cause)
    };
    CoreModel {
        pc: new_pc,
        privilege: PrivilegeLevel::Machine,
        csr: CsrModel { mstatus: m3, ..csr3 },
        ..c
    }
}

impl Exception {
    /// The trap engine: saves context into the CSRs, escalates privilege,
    /// and redirects the program counter through the trap vector, per
    /// `spec_trap`. Every fault is fatal to the current instruction; the
    /// run loop resumes fetching at the redirected counter.
    pub fn trap(&self, core: &mut RVCore) -> (r: Trap)
        requires
            old(core).wf(),
        ensures
            final(core).wf(),
            final(core)@ == spec_trap(*self, old(core)@),
            r == Trap::Requested,
    {
        let prev_priv_level = core.privilege_level;
        // Exception delegation is represented in data but not yet applied:
        // every trap is handled at Machine level.
        let _medeleg = core.control_and_status.read_csr_unchecked(crate::csr::MEDELEG);
        let cause = self.get_cause();

        core.privilege_level = PrivilegeLevel::Machine;

        core.control_and_status.write_csr_unchecked(MEPC, core.pc);
        core.control_and_status.write_csr_unchecked(MCAUSE, cause);
        core.control_and_status.write_csr_unchecked(MTVAL, 0);

        let mstatus = core.control_and_status.get_mstatus_mut_ref(core.privilege_level);
        mstatus.set_mpp(prev_priv_level.to_num());
        let mie = mstatus.get_mie();
        mstatus.set_mpie(mie);
        mstatus.set_mie(false);

        let mtvec = core.control_and_status.read_csr_unchecked(MTVEC);
        let base = mtvec - mtvec % 4;
        if mtvec % 4 == 0 {
            core.pc = base;
        } else {
            core.pc = base.wrapping_add(4 * cause);
        }

        Trap::Requested
    }
}

} // verus!
