//! The RV32A atomic execution handlers: load-reserved, store-conditional,
//! and the read-modify-write word operations. Reservations live in the
//! bus's per-hart table; the hart identifier is read through the
//! privilege-checked CSR path, so every atomic demands Machine privilege
//! in this single-hart configuration.

use vstd::prelude::*;

use crate::bus::{sread4, swrite4, Bus, BusModel};
use crate::csr::MHARTID;
use crate::exception::{priv_num, Exception};
use crate::riscv_core::{reg_val, with_reg, AOp, AtomicInstruction, CoreModel, RVCore};
use crate::word::{s32, s32_val, w32};

verus! {

/// The word an atomic read-modify-write stores back, per mnemonic.
pub open spec fn spec_amo_op(op: AOp, tmp: u32, rs2: u32) -> u32 {
    match op {
        AOp::AmoswapW => rs2,
        AOp::AmoaddW => w32(tmp + rs2),
        AOp::AmoandW => tmp & rs2,
        AOp::AmoorW => tmp | rs2,
        AOp::AmoxorW => tmp ^ rs2,
        AOp::AmomaxW => if s32(tmp) >= s32(rs2) {
            tmp
        } else {
            rs2
        },
        AOp::AmominW => if s32(tmp) <= s32(rs2) {
            tmp
        } else {
            rs2
        },
        AOp::AmomaxuW => if tmp >= rs2 {
            tmp
        } else {
            rs2
        },
        AOp::AmominuW => if tmp <= rs2 {
            tmp
        } else {
            rs2
        },
        _ => tmp,
    }
}

/// Step relation of `lr.w`: the aligned word at the address in the first
/// source register is loaded into the destination, and the address is
/// recorded as this hart's reservation. A misaligned address or a faulting
/// read leaves the core untouched; the hart-identifier read demands
/// Machine privilege and faults after the destination was already
/// written, as the executed order has it.
pub open spec fn lr_step(
    i: AtomicInstruction,
    c0: CoreModel,
    b0: BusModel,
    c1: CoreModel,
    b1: BusModel,
    r: Result<(), Exception>,
) -> bool {
    let addr = reg_val(c0, i.rs1) as usize;
    if addr % 4 != 0 {
        r == Err::<(), Exception>(Exception::LoadAddressMisaligned) && c1 == c0 && b1 == b0
    } else {
        let (res, b2) = sread4(b0, addr as int);
        match res {
            Err(e) => r == Err::<(), Exception>(e) && c1 == c0 && b1 == b2,
            Ok(v) => {
                let c_mid = with_reg(c0, i.rd, v);
                if priv_num(c0.privilege) < 3 {
                    r == Err::<(), Exception>(Exception::IllegalInstruction(0)) && c1 == c_mid
                        && b1 == b2
                } else {
                    let hart = c0.csr.regs[MHARTID as int] as usize;
                    &&& r == Ok::<(), Exception>(())
                    &&& c1 == c_mid
                    &&& b1 == (BusModel {
                        reserved: b2.reserved.update(hart as int, Some(addr)),
                        ..b2
                    })
                }
            },
        }
    }
}

/// Step relation of `sc.w`: with this hart's reservation still naming the
/// target address, the second source value is stored and the destination
/// gets 0; otherwise nothing is stored and the destination gets 1. The
/// reservation is dropped on both of those paths; a faulting store
/// returns its fault with the reservation kept, as the executed order has
/// it.
pub open spec fn sc_step(
    i: AtomicInstruction,
    c0: CoreModel,
    b0: BusModel,
    c1: CoreModel,
    b1: BusModel,
    r: Result<(), Exception>,
) -> bool {
    let addr = reg_val(c0, i.rs1) as usize;
    if priv_num(c0.privilege) < 3 {
        r == Err::<(), Exception>(Exception::IllegalInstruction(0)) && c1 == c0 && b1 == b0
    } else {
        let hart = c0.csr.regs[MHARTID as int] as usize;
        if b0.reserved[hart as int] == Some(addr) {
            if addr % 4 != 0 {
                r == Err::<(), Exception>(Exception::StoreAmoAddressMisaligned) && c1 == c0 && b1
                    == b0
            } else {
                let (res, b2) = swrite4(b0, addr as int, reg_val(c0, i.rs2));
                match res {
                    Err(e) => r == Err::<(), Exception>(e) && c1 == c0 && b1 == b2,
                    Ok(_) => {
                        &&& r == Ok::<(), Exception>(())
                        &&& c1 == with_reg(c0, i.rd, 0)
                        &&& b1 == (BusModel {
                            reserved: b2.reserved.update(hart as int, None),
                            ..b2
                        })
                    },
                }
            }
        } else {
            &&& r == Ok::<(), Exception>(())
            &&& c1 == with_reg(c0, i.rd, 1)
            &&& b1 == (BusModel { reserved: b0.reserved.update(hart as int, None), ..b0 })
        }
    }
}

/// Step relation of every `amo*.w`: the aligned word at the target is
/// loaded, combined with the second source value per `spec_amo_op`,
/// stored back, and the old word lands in the destination. The
/// read-modify-write is uninterruptible from the guest's point of view.
pub open spec fn amo_step(
    op: AOp,
    i: AtomicInstruction,
    c0: CoreModel,
    b0: BusModel,
    c1: CoreModel,
    b1: BusModel,
    r: Result<(), Exception>,
) -> bool {
    let addr = reg_val(c0, i.rs1) as usize;
    if addr % 4 != 0 {
        r == Err::<(), Exception>(Exception::LoadAddressMisaligned) && c1 == c0 && b1 == b0
    } else {
        let (res, b2) = sread4(b0, addr as int);
        match res {
            Err(e) => r == Err::<(), Exception>(e) && c1 == c0 && b1 == b2,
            Ok(tmp) => {
                let (res2, b3) = swrite4(b2, addr as int, spec_amo_op(op, tmp, reg_val(c0, i.rs2)));
                match res2 {
                    Err(e) => r == Err::<(), Exception>(e) && c1 == c0 && b1 == b3,
                    Ok(_) => r == Ok::<(), Exception>(()) && c1 == with_reg(c0, i.rd, tmp) && b1
                        == b3,
                }
            },
        }
    }
}

/// Law: once any byte store lands on the word a hart holds reserved, that
/// hart's store-conditional must fail — it returns 1 in the destination
/// register and leaves memory untouched.
pub proof fn lemma_store_then_sc_fails(
    i: AtomicInstruction,
    c0: CoreModel,
    b0: BusModel,
    val: u8,
    c1: CoreModel,
    b1: BusModel,
    r: Result<(), Exception>,
)
    requires
        crate::bus::bus_wf(b0),
        crate::riscv_core::core_wf(c0),
        priv_num(c0.privilege) == 3,
        crate::bus::DRAM_BASE <= (reg_val(c0, i.rs1) as usize),
        (reg_val(c0, i.rs1) as usize) < crate::bus::DRAM_END,
        b0.reserved[c0.csr.regs[MHARTID as int] as int] == Some(reg_val(c0, i.rs1) as usize),
        sc_step(i, c0, crate::bus::swrite(b0, reg_val(c0, i.rs1) as int, val).1, c1, b1, r),
    ensures
        r == Ok::<(), Exception>(()),
        c1 == with_reg(c0, i.rd, 1),
        b1.dram == crate::bus::swrite(b0, reg_val(c0, i.rs1) as int, val).1.dram,
{
    let addr = reg_val(c0, i.rs1) as usize;
    let hart = c0.csr.regs[MHARTID as int] as int;
    crate::bus::lemma_write_invalidates_reservation(b0, hart, addr as int, val);
}

pub fn lr_w(instr: &AtomicInstruction, bus: &mut Bus, core: &mut RVCore) -> (r: Result<
    (),
    Exception,
>)
    requires
        old(core).wf(),
        old(bus).wf(),
        instr.wf(),
    ensures
        final(core).wf(),
        final(bus).wf(),
        lr_step(*instr, old(core)@, old(bus)@, final(core)@, final(bus)@, r),
{
    let address = core.read_reg(instr.rs1) as usize;

    let val = match bus.read_word(address) {
        Ok(v) => v,
        Err(e) => {
            return Err(e);
        },
    };
    core.write_reg(instr.rd, val);
    let hart = match core.read_hartid() {
        Ok(h) => h,
        Err(e) => {
            return Err(e);
        },
    };
    bus.reserve_address(hart, address);

    Ok(())
}

pub fn sc_w(instr: &AtomicInstruction, bus: &mut Bus, core: &mut RVCore) -> (r: Result<
    (),
    Exception,
>)
    requires
        old(core).wf(),
        old(bus).wf(),
        instr.wf(),
    ensures
        final(core).wf(),
        final(bus).wf(),
        sc_step(*instr, old(core)@, old(bus)@, final(core)@, final(bus)@, r),
{
    let address = core.read_reg(instr.rs1) as usize;

    let rs2_val = core.read_reg(instr.rs2);

    let hart = match core.read_hartid() {
        Ok(h) => h,
        Err(e) => {
            return Err(e);
        },
    };
    if bus.is_address_reserved(hart, address) {
        match bus.write_word(address, rs2_val) {
            Ok(_) => {},
            Err(e) => {
                return Err(e);
            },
        }
        core.write_reg(instr.rd, 0);
    } else {
        core.write_reg(instr.rd, 1);
    }

    bus.invalidate_reserved_address(hart);

    Ok(())
}

pub fn amoswap_w(instr: &AtomicInstruction, bus: &mut Bus, core: &mut RVCore) -> (r: Result<
    (),
    Exception,
>)
    requires
        old(core).wf(),
        old(bus).wf(),
        instr.wf(),
    ensures
        final(core).wf(),
        final(bus).wf(),
        amo_step(AOp::AmoswapW, *instr, old(core)@, old(bus)@, final(core)@, final(bus)@, r),
{
    let address = core.read_reg(instr.rs1) as usize;

    let tmp = match bus.read_word(address) {
        Ok(v) => v,
        Err(e) => {
            return Err(e);
        },
    };
    match bus.write_word(address, core.read_reg(instr.rs2)) {
        Ok(_) => {},
        Err(e) => {
            return Err(e);
        },
    }
    core.write_reg(instr.rd, tmp);

    Ok(())
}

pub fn amoadd_w(instr: &AtomicInstruction, bus: &mut Bus, core: &mut RVCore) -> (r: Result<
    (),
    Exception,
>)
    requires
        old(core).wf(),
        old(bus).wf(),
        instr.wf(),
    ensures
        final(core).wf(),
        final(bus).wf(),
        amo_step(AOp::AmoaddW, *instr, old(core)@, old(bus)@, final(core)@, final(bus)@, r),
{
    let address = core.read_reg(instr.rs1) as usize;

    let tmp = match bus.read_word(address) {
        Ok(v) => v,
        Err(e) => {
            return Err(e);
        },
    };
    let rs2_val = core.read_reg(instr.rs2);
    proof {
        crate::word::lemma_wrapping_add_w32(tmp, rs2_val);
    }
    match bus.write_word(address, tmp.wrapping_add(rs2_val)) {
        Ok(_) => {},
        Err(e) => {
            return Err(e);
        },
    }
    core.write_reg(instr.rd, tmp);

    Ok(())
}

pub fn amoand_w(instr: &AtomicInstruction, bus: &mut Bus, core: &mut RVCore) -> (r: Result<
    (),
    Exception,
>)
    requires
        old(core).wf(),
        old(bus).wf(),
        instr.wf(),
    ensures
        final(core).wf(),
        final(bus).wf(),
        amo_step(AOp::AmoandW, *instr, old(core)@, old(bus)@, final(core)@, final(bus)@, r),
{
    let address = core.read_reg(instr.rs1) as usize;

    let tmp = match bus.read_word(address) {
        Ok(v) => v,
        Err(e) => {
            return Err(e);
        },
    };
    match bus.write_word(address, tmp & core.read_reg(instr.rs2)) {
        Ok(_) => {},
        Err(e) => {
            return Err(e);
        },
    }
    core.write_reg(instr.rd, tmp);

    Ok(())
}

pub fn amoor_w(instr: &AtomicInstruction, bus: &mut Bus, core: &mut RVCore) -> (r: Result<
    (),
    Exception,
>)
    requires
        old(core).wf(),
        old(bus).wf(),
        instr.wf(),
    ensures
        final(core).wf(),
        final(bus).wf(),
        amo_step(AOp::AmoorW, *instr, old(core)@, old(bus)@, final(core)@, final(bus)@, r),
{
    let address = core.read_reg(instr.rs1) as usize;

    let tmp = match bus.read_word(address) {
        Ok(v) => v,
        Err(e) => {
            return Err(e);
        },
    };
    match bus.write_word(address, tmp | core.read_reg(instr.rs2)) {
        Ok(_) => {},
        Err(e) => {
            return Err(e);
        },
    }
    core.write_reg(instr.rd, tmp);

    Ok(())
}

pub fn amoxor_w(instr: &AtomicInstruction, bus: &mut Bus, core: &mut RVCore) -> (r: Result<
    (),
    Exception,
>)
    requires
        old(core).wf(),
        old(bus).wf(),
        instr.wf(),
    ensures
        final(core).wf(),
        final(bus).wf(),
        amo_step(AOp::AmoxorW, *instr, old(core)@, old(bus)@, final(core)@, final(bus)@, r),
{
    let address = core.read_reg(instr.rs1) as usize;

    let tmp = match bus.read_word(address) {
        Ok(v) => v,
        Err(e) => {
            return Err(e);
        },
    };
    match bus.write_word(address, tmp ^ core.read_reg(instr.rs2)) {
        Ok(_) => {},
        Err(e) => {
            return Err(e);
        },
    }
    core.write_reg(instr.rd, tmp);

    Ok(())
}

pub fn amomax_w(instr: &AtomicInstruction, bus: &mut Bus, core: &mut RVCore) -> (r: Result<
    (),
    Exception,
>)
    requires
        old(core).wf(),
        old(bus).wf(),
        instr.wf(),
    ensures
        final(core).wf(),
        final(bus).wf(),
        amo_step(AOp::AmomaxW, *instr, old(core)@, old(bus)@, final(core)@, final(bus)@, r),
{
    let address = core.read_reg(instr.rs1) as usize;

    let tmp = match bus.read_word(address) {
        Ok(v) => v,
        Err(e) => {
            return Err(e);
        },
    };
    let rs2_val = core.read_reg(instr.rs2);
    let new_val: u32 = if s32_val(tmp) >= s32_val(rs2_val) {
        tmp
    } else {
        rs2_val
    };
    match bus.write_word(address, new_val) {
        Ok(_) => {},
        Err(e) => {
            return Err(e);
        },
    }
    core.write_reg(instr.rd, tmp);

    Ok(())
}

pub fn amomin_w(instr: &AtomicInstruction, bus: &mut Bus, core: &mut RVCore) -> (r: Result<
    (),
    Exception,
>)
    requires
        old(core).wf(),
        old(bus).wf(),
        instr.wf(),
    ensures
        final(core).wf(),
        final(bus).wf(),
        amo_step(AOp::AmominW, *instr, old(core)@, old(bus)@, final(core)@, final(bus)@, r),
{
    let address = core.read_reg(instr.rs1) as usize;

    let tmp = match bus.read_word(address) {
        Ok(v) => v,
        Err(e) => {
            return Err(e);
        },
    };
    let rs2_val = core.read_reg(instr.rs2);
    let new_val: u32 = if s32_val(tmp) <= s32_val(rs2_val) {
        tmp
    } else {
        rs2_val
    };
    match bus.write_word(address, new_val) {
        Ok(_) => {},
        Err(e) => {
            return Err(e);
        },
    }
    core.write_reg(instr.rd, tmp);

    Ok(())
}

pub fn amomaxu_w(instr: &AtomicInstruction, bus: &mut Bus, core: &mut RVCore) -> (r: Result<
    (),
    Exception,
>)
    requires
        old(core).wf(),
        old(bus).wf(),
        instr.wf(),
    ensures
        final(core).wf(),
        final(bus).wf(),
        amo_step(AOp::AmomaxuW, *instr, old(core)@, old(bus)@, final(core)@, final(bus)@, r),
{
    let address = core.read_reg(instr.rs1) as usize;

    let tmp = match bus.read_word(address) {
        Ok(v) => v,
        Err(e) => {
            return Err(e);
        },
    };
    let rs2_val = core.read_reg(instr.rs2);
    let new_val: u32 = if tmp >= rs2_val {
        tmp
    } else {
        rs2_val
    };
    match bus.write_word(address, new_val) {
        Ok(_) => {},
        Err(e) => {
            return Err(e);
        },
    }
    core.write_reg(instr.rd, tmp);

    Ok(())
}

pub fn amominu_w(instr: &AtomicInstruction, bus: &mut Bus, core: &mut RVCore) -> (r: Result<
    (),
    Exception,
>)
    requires
        old(core).wf(),
        old(bus).wf(),
        instr.wf(),
    ensures
        final(core).wf(),
        final(bus).wf(),
        amo_step(AOp::AmominuW, *instr, old(core)@, old(bus)@, final(core)@, final(bus)@, r),
{
    let address = core.read_reg(instr.rs1) as usize;

    let tmp = match bus.read_word(address) {
        Ok(v) => v,
        Err(e) => {
            return Err(e);
        },
    };
    let rs2_val = core.read_reg(instr.rs2);
    let new_val: u32 = if tmp <= rs2_val {
        tmp
    } else {
        rs2_val
    };
    match bus.write_word(address, new_val) {
        Ok(_) => {},
        Err(e) => {
            return Err(e);
        },
    }
    core.write_reg(instr.rd, tmp);

    Ok(())
}

} // verus!
