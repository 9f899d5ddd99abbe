//! The RV32M multiply/divide execution handlers. Division follows the
//! architecture's totalised semantics: division by zero and the one
//! signed-overflow case produce fixed results instead of trapping.

use vstd::prelude::*;

use crate::exception::Exception;
use crate::riscv_core::{reg_val, spec_r_op, with_reg, RInstruction, ROp, RVCore};
use crate::rv32i::r_step;
use crate::word::{iabs, s32, s32_val, tdiv, tmod, w32, wrap_to_u32};

verus! {

/// The truncated quotient is no larger in magnitude than the dividend,
/// and neither is the quotient times the divisor.
proof fn lemma_tdiv_bound(x: int, d: int)
    requires
        iabs(x) <= 0x8000_0000,
        iabs(d) >= 1,
    ensures
        iabs(tdiv(x, d)) <= iabs(x),
        iabs(tdiv(x, d) * d) <= iabs(x),
{
    let ax = iabs(x);
    let ad = iabs(d);
    let q0 = ax / ad;
    assert(0 <= q0 <= ax && q0 * ad <= ax) by (nonlinear_arith)
        requires
            ax >= 0,
            ad >= 1,
            q0 == ax / ad,
    ;
    assert(iabs(tdiv(x, d)) == q0);
    assert(iabs(tdiv(x, d) * d) == iabs(tdiv(x, d)) * iabs(d)) by (nonlinear_arith);
    assert(iabs(tdiv(x, d)) * iabs(d) == q0 * ad);
}

/// The sign-split division cases equal the truncated quotient.
proof fn lemma_tdiv_cases(x: int, d: int)
    requires
        d != 0,
    ensures
        tdiv(x, d) == (if x == 0 {
            0
        } else if x > 0 && d > 0 {
            x / d
        } else if x < 0 && d < 0 {
            (x * -1) / (d * -1)
        } else if x < 0 {
            ((x * -1) / d) * -1
        } else {
            (x / (d * -1)) * -1
        }),
{
    if x == 0 {
        assert(0int / iabs(d) == 0) by (nonlinear_arith)
            requires
                iabs(d) >= 1,
        ;
    }
}

pub fn mul(instr: &RInstruction, core: &mut RVCore) -> (r: Result<(), Exception>)
    requires
        old(core).wf(),
        instr.wf(),
    ensures
        final(core).wf(),
        r_step(ROp::Mul, *instr, old(core)@, final(core)@, r),
{
    let rs1_val = core.read_reg(instr.rs1);
    let rs2_val = core.read_reg(instr.rs2);

    let val = rs1_val.wrapping_mul(rs2_val);
    core.write_reg(instr.rd, val);
    Ok(())
}

pub fn mulh(instr: &RInstruction, core: &mut RVCore) -> (r: Result<(), Exception>)
    requires
        old(core).wf(),
        instr.wf(),
    ensures
        final(core).wf(),
        r_step(ROp::Mulh, *instr, old(core)@, final(core)@, r),
{
    let rs1_val = core.read_reg(instr.rs1);
    let rs2_val = core.read_reg(instr.rs2);
    let a_s = s32_val(rs1_val);
    let b_s = s32_val(rs2_val);

    proof {
        assert(-0x4000_0000_0000_0000 <= a_s * b_s <= 0x4000_0000_0000_0000) by (nonlinear_arith)
            requires
                -0x8000_0000 <= a_s <= 0x7FFF_FFFF,
                -0x8000_0000 <= b_s <= 0x7FFF_FFFF,
        ;
    }
    let p = a_s * b_s;
    let q = p.checked_div_euclid(0x1_0000_0000).unwrap();
    let low = q.checked_rem_euclid(0x1_0000_0000).unwrap();
    core.write_reg(instr.rd, low as u32);
    Ok(())
}

pub fn mulhsu(instr: &RInstruction, core: &mut RVCore) -> (r: Result<(), Exception>)
    requires
        old(core).wf(),
        instr.wf(),
    ensures
        final(core).wf(),
        r_step(ROp::Mulhsu, *instr, old(core)@, final(core)@, r),
{
    let rs1_val = core.read_reg(instr.rs1);
    let rs2_val = core.read_reg(instr.rs2);
    let a_s = s32_val(rs1_val);
    let b_u = rs2_val as i64;

    proof {
        assert(-0x8000_0000_0000_0000 < a_s * b_u < 0x8000_0000_0000_0000) by (nonlinear_arith)
            requires
                -0x8000_0000 <= a_s <= 0x7FFF_FFFF,
                0 <= b_u <= 0xFFFF_FFFF,
        ;
    }
    let p = a_s * b_u;
    let q = p.checked_div_euclid(0x1_0000_0000).unwrap();
    let low = q.checked_rem_euclid(0x1_0000_0000).unwrap();
    core.write_reg(instr.rd, low as u32);
    Ok(())
}

pub fn mulhu(instr: &RInstruction, core: &mut RVCore) -> (r: Result<(), Exception>)
    requires
        old(core).wf(),
        instr.wf(),
    ensures
        final(core).wf(),
        r_step(ROp::Mulhu, *instr, old(core)@, final(core)@, r),
{
    let rs1_val = core.read_reg(instr.rs1);
    let rs2_val = core.read_reg(instr.rs2);
    let a_u = rs1_val as u64;
    let b_u = rs2_val as u64;

    proof {
        assert(a_u * b_u <= 0xFFFF_FFFF_0000_0000) by (nonlinear_arith)
            requires
                a_u <= 0xFFFF_FFFF,
                b_u <= 0xFFFF_FFFF,
        ;
        assert((a_u * b_u) / 0x1_0000_0000 <= 0xFFFF_FFFF) by (nonlinear_arith)
            requires
                a_u * b_u <= 0xFFFF_FFFF_0000_0000,
        ;
    }
    let p = a_u * b_u;
    let q = p / 0x1_0000_0000;
    core.write_reg(instr.rd, q as u32);
    Ok(())
}

pub fn div(instr: &RInstruction, core: &mut RVCore) -> (r: Result<(), Exception>)
    requires
        old(core).wf(),
        instr.wf(),
    ensures
        final(core).wf(),
        r_step(ROp::Div, *instr, old(core)@, final(core)@, r),
{
    let rs1_val = core.read_reg(instr.rs1);
    let rs2_val = core.read_reg(instr.rs2);

    let val: u32 = if rs2_val == 0 {
        0xFFFFFFFF
    } else if rs1_val == 0x80000000 && rs2_val == 0xFFFFFFFF {
        0x80000000
    } else {
        let a_s = s32_val(rs1_val);
        let b_s = s32_val(rs2_val);
        proof {
            lemma_tdiv_cases(a_s as int, b_s as int);
            lemma_tdiv_bound(a_s as int, b_s as int);
        }
        let q = a_s.checked_div(b_s).unwrap();
        wrap_to_u32(q)
    };

    core.write_reg(instr.rd, val);
    Ok(())
}

pub fn divu(instr: &RInstruction, core: &mut RVCore) -> (r: Result<(), Exception>)
    requires
        old(core).wf(),
        instr.wf(),
    ensures
        final(core).wf(),
        r_step(ROp::Divu, *instr, old(core)@, final(core)@, r),
{
    let rs1_val = core.read_reg(instr.rs1);
    let rs2_val = core.read_reg(instr.rs2);

    let val: u32 = if rs2_val != 0 {
        rs1_val / rs2_val
    } else {
        u32::MAX
    };

    core.write_reg(instr.rd, val);
    Ok(())
}

pub fn rem(instr: &RInstruction, core: &mut RVCore) -> (r: Result<(), Exception>)
    requires
        old(core).wf(),
        instr.wf(),
    ensures
        final(core).wf(),
        r_step(ROp::Rem, *instr, old(core)@, final(core)@, r),
{
    let rs1_val = core.read_reg(instr.rs1);
    let rs2_val = core.read_reg(instr.rs2);

    let val: u32 = if rs2_val == 0 {
        rs1_val
    } else if rs1_val == 0x80000000 && rs2_val == 0xFFFFFFFF {
        0
    } else {
        let a_s = s32_val(rs1_val);
        let b_s = s32_val(rs2_val);
        proof {
            lemma_tdiv_cases(a_s as int, b_s as int);
            lemma_tdiv_bound(a_s as int, b_s as int);
        }
        let q = a_s.checked_div(b_s).unwrap();
        let rem_v = a_s - q * b_s;
        wrap_to_u32(rem_v)
    };

    core.write_reg(instr.rd, val);
    Ok(())
}

pub fn remu(instr: &RInstruction, core: &mut RVCore) -> (r: Result<(), Exception>)
    requires
        old(core).wf(),
        instr.wf(),
    ensures
        final(core).wf(),
        r_step(ROp::Remu, *instr, old(core)@, final(core)@, r),
{
    let rs1_val = core.read_reg(instr.rs1);
    let rs2_val = core.read_reg(instr.rs2);

    let val: u32 = if rs2_val != 0 {
        rs1_val % rs2_val
    } else {
        rs1_val
    };

    core.write_reg(instr.rd, val);
    Ok(())
}

/// Law: division by zero yields all-ones — the two's-complement pattern
/// of −1 — for both division forms; remainder by zero yields the dividend
/// unchanged; and the one signed overflow case, the minimum value divided
/// by −1, yields the minimum value unchanged rather than trapping.
pub proof fn lemma_division_edge_cases(x: u32)
    ensures
        spec_r_op(ROp::Div, x, 0) == w32(-1),
        spec_r_op(ROp::Divu, x, 0) == 0xFFFFFFFFu32,
        spec_r_op(ROp::Rem, x, 0) == x,
        spec_r_op(ROp::Remu, x, 0) == x,
        spec_r_op(ROp::Div, 0x80000000u32, 0xFFFFFFFFu32) == 0x80000000u32,
        s32(0xFFFFFFFFu32) == -1 && s32(0x80000000u32) == -0x80000000,
{
}

} // verus!
