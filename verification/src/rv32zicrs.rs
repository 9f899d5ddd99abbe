//! The CSR read-modify-write instructions. Each step relation follows the
//! executed order exactly: the old value is read (and, except for the
//! plain read-write form, placed in the destination register) before the
//! new value is computed and written, and an elided write leaves the bank
//! untouched.

use vstd::prelude::*;

use crate::bus::Bus;
use crate::csr::{csr_accessible, csr_rw_tier, spec_csr_read_checked, spec_csr_write, CsrModel};
use crate::exception::Exception;
use crate::riscv_core::{reg_val, with_reg, CoreModel, IInstruction, RVCore};

verus! {

/// Whether privilege-checked writes to register `csr` succeed from the
/// privilege level of core state `c`.
pub open spec fn csr_writable(csr: usize, c: CoreModel) -> bool {
    csr_rw_tier(csr) != 3 && csr_accessible(csr, c.privilege)
}

/// Step relation of `csrrw`: the old CSR value goes to the destination
/// unless the destination is register zero (the read is skipped to spare
/// read side effects); the first source value is then always written.
pub open spec fn csrrw_step(i: IInstruction, c0: CoreModel, c1: CoreModel, r: Result<
    (),
    Exception,
>) -> bool {
    let csr = i.imm as usize;
    if i.rd != 0 && !csr_accessible(csr, c0.privilege) {
        r == Err::<(), Exception>(Exception::IllegalInstruction(0)) && c1 == c0
    } else {
        let c_mid = if i.rd != 0 {
            with_reg(c0, i.rd, spec_csr_read_checked(c0.csr, csr))
        } else {
            c0
        };
        if !csr_writable(csr, c0) {
            r == Err::<(), Exception>(Exception::IllegalInstruction(0)) && c1 == c_mid
        } else {
            &&& r == Ok::<(), Exception>(())
            &&& c1 == (CoreModel {
                csr: spec_csr_write(c_mid.csr, csr, reg_val(c_mid, i.rs1)),
                ..c_mid
            })
        }
    }
}

/// Step relation of `csrrs`: the old value always goes to the
/// destination; source bits are or-ed in unless the source is register
/// zero, in which case the write is elided.
pub open spec fn csrrs_step(i: IInstruction, c0: CoreModel, c1: CoreModel, r: Result<
    (),
    Exception,
>) -> bool {
    let csr = i.imm as usize;
    if !csr_accessible(csr, c0.privilege) {
        r == Err::<(), Exception>(Exception::IllegalInstruction(0)) && c1 == c0
    } else {
        let old_v = spec_csr_read_checked(c0.csr, csr);
        let c_mid = with_reg(c0, i.rd, old_v);
        if i.rs1 == 0 {
            r == Ok::<(), Exception>(()) && c1 == c_mid
        } else if !csr_writable(csr, c0) {
            r == Err::<(), Exception>(Exception::IllegalInstruction(0)) && c1 == c_mid
        } else {
            &&& r == Ok::<(), Exception>(())
            &&& c1 == (CoreModel {
                csr: spec_csr_write(c_mid.csr, csr, old_v | reg_val(c_mid, i.rs1)),
                ..c_mid
            })
        }
    }
}

/// Step relation of `csrrc`: as `csrrs`, with the source bits cleared
/// instead of set.
pub open spec fn csrrc_step(i: IInstruction, c0: CoreModel, c1: CoreModel, r: Result<
    (),
    Exception,
>) -> bool {
    let csr = i.imm as usize;
    if !csr_accessible(csr, c0.privilege) {
        r == Err::<(), Exception>(Exception::IllegalInstruction(0)) && c1 == c0
    } else {
        let old_v = spec_csr_read_checked(c0.csr, csr);
        let c_mid = with_reg(c0, i.rd, old_v);
        if i.rs1 == 0 {
            r == Ok::<(), Exception>(()) && c1 == c_mid
        } else if !csr_writable(csr, c0) {
            r == Err::<(), Exception>(Exception::IllegalInstruction(0)) && c1 == c_mid
        } else {
            &&& r == Ok::<(), Exception>(())
            &&& c1 == (CoreModel {
                csr: spec_csr_write(c_mid.csr, csr, old_v & !reg_val(c_mid, i.rs1)),
                ..c_mid
            })
        }
    }
}

/// Step relation of `csrrwi`: as `csrrw` with the five-bit immediate
/// (carried in the source-register field) as the written value; the
/// write always happens.
pub open spec fn csrrwi_step(i: IInstruction, c0: CoreModel, c1: CoreModel, r: Result<
    (),
    Exception,
>) -> bool {
    let csr = i.imm as usize;
    if i.rd != 0 && !csr_accessible(csr, c0.privilege) {
        r == Err::<(), Exception>(Exception::IllegalInstruction(0)) && c1 == c0
    } else {
        let c_mid = if i.rd != 0 {
            with_reg(c0, i.rd, spec_csr_read_checked(c0.csr, csr))
        } else {
            c0
        };
        if !csr_writable(csr, c0) {
            r == Err::<(), Exception>(Exception::IllegalInstruction(0)) && c1 == c_mid
        } else {
            &&& r == Ok::<(), Exception>(())
            &&& c1 == (CoreModel { csr: spec_csr_write(c_mid.csr, csr, i.rs1), ..c_mid })
        }
    }
}

/// Step relation of `csrrsi`: the old value goes to the destination;
/// immediate bits are or-ed in unless the immediate is zero.
pub open spec fn csrrsi_step(i: IInstruction, c0: CoreModel, c1: CoreModel, r: Result<
    (),
    Exception,
>) -> bool {
    let csr = i.imm as usize;
    if !csr_accessible(csr, c0.privilege) {
        r == Err::<(), Exception>(Exception::IllegalInstruction(0)) && c1 == c0
    } else {
        let old_v = spec_csr_read_checked(c0.csr, csr);
        let c_mid = with_reg(c0, i.rd, old_v);
        if i.rs1 == 0 {
            r == Ok::<(), Exception>(()) && c1 == c_mid
        } else if !csr_writable(csr, c0) {
            r == Err::<(), Exception>(Exception::IllegalInstruction(0)) && c1 == c_mid
        } else {
            &&& r == Ok::<(), Exception>(())
            &&& c1 == (CoreModel { csr: spec_csr_write(c_mid.csr, csr, old_v | i.rs1), ..c_mid })
        }
    }
}

/// Step relation of `csrrci`: as `csrrsi`, with the immediate bits
/// cleared instead of set.
pub open spec fn csrrci_step(i: IInstruction, c0: CoreModel, c1: CoreModel, r: Result<
    (),
    Exception,
>) -> bool {
    let csr = i.imm as usize;
    if !csr_accessible(csr, c0.privilege) {
        r == Err::<(), Exception>(Exception::IllegalInstruction(0)) && c1 == c0
    } else {
        let old_v = spec_csr_read_checked(c0.csr, csr);
        let c_mid = with_reg(c0, i.rd, old_v);
        if i.rs1 == 0 {
            r == Ok::<(), Exception>(()) && c1 == c_mid
        } else if !csr_writable(csr, c0) {
            r == Err::<(), Exception>(Exception::IllegalInstruction(0)) && c1 == c_mid
        } else {
            &&& r == Ok::<(), Exception>(())
            &&& c1 == (CoreModel { csr: spec_csr_write(c_mid.csr, csr, old_v & !i.rs1), ..c_mid })
        }
    }
}

pub fn csrrw(instr: &IInstruction, _bus: &mut Bus, core: &mut RVCore) -> (r: Result<(), Exception>)
    requires
        old(core).wf(),
        old(_bus).wf(),
        instr.wf(),
        instr.imm < 0x1000,
    ensures
        final(core).wf(),
        final(_bus).wf(),
        final(_bus)@ == old(_bus)@,
        csrrw_step(*instr, old(core)@, final(core)@, r),
{
    let csr = instr.imm as usize;
    if instr.rd != 0 {
        let old_csr = match core.control_and_status.read_csr(csr, core.privilege_level) {
            Ok(v) => v,
            Err(e) => {
                return Err(e);
            },
        };
        core.write_reg(instr.rd, old_csr);
    }
    let rs1_val = core.read_reg(instr.rs1);
    match core.control_and_status.write_csr(csr, core.privilege_level, rs1_val) {
        Ok(_) => Ok(()),
        Err(e) => Err(e),
    }
}

pub fn csrrs(instr: &IInstruction, _bus: &mut Bus, core: &mut RVCore) -> (r: Result<(), Exception>)
    requires
        old(core).wf(),
        old(_bus).wf(),
        instr.wf(),
        instr.imm < 0x1000,
    ensures
        final(core).wf(),
        final(_bus).wf(),
        final(_bus)@ == old(_bus)@,
        csrrs_step(*instr, old(core)@, final(core)@, r),
{
    let csr = instr.imm as usize;
    let old_csr = match core.control_and_status.read_csr(csr, core.privilege_level) {
        Ok(v) => v,
        Err(e) => {
            return Err(e);
        },
    };
    core.write_reg(instr.rd, old_csr);

    if instr.rs1 != 0 {
        let rs1_val = core.read_reg(instr.rs1);
        let new_csr = old_csr | rs1_val;
        match core.control_and_status.write_csr(csr, core.privilege_level, new_csr) {
            Ok(_) => Ok(()),
            Err(e) => Err(e),
        }
    } else {
        Ok(())
    }
}

pub fn csrrc(instr: &IInstruction, _bus: &mut Bus, core: &mut RVCore) -> (r: Result<(), Exception>)
    requires
        old(core).wf(),
        old(_bus).wf(),
        instr.wf(),
        instr.imm < 0x1000,
    ensures
        final(core).wf(),
        final(_bus).wf(),
        final(_bus)@ == old(_bus)@,
        csrrc_step(*instr, old(core)@, final(core)@, r),
{
    let csr = instr.imm as usize;
    let old_csr = match core.control_and_status.read_csr(csr, core.privilege_level) {
        Ok(v) => v,
        Err(e) => {
            return Err(e);
        },
    };
    core.write_reg(instr.rd, old_csr);

    if instr.rs1 != 0 {
        let rs1_val = core.read_reg(instr.rs1);
        let new_csr = old_csr & !rs1_val;
        match core.control_and_status.write_csr(csr, core.privilege_level, new_csr) {
            Ok(_) => Ok(()),
            Err(e) => Err(e),
        }
    } else {
        Ok(())
    }
}

pub fn csrrwi(instr: &IInstruction, _bus: &mut Bus, core: &mut RVCore) -> (r: Result<(), Exception>)
    requires
        old(core).wf(),
        old(_bus).wf(),
        instr.wf(),
        instr.imm < 0x1000,
    ensures
        final(core).wf(),
        final(_bus).wf(),
        final(_bus)@ == old(_bus)@,
        csrrwi_step(*instr, old(core)@, final(core)@, r),
{
    let csr = instr.imm as usize;
    let imm_val = instr.rs1;

    if instr.rd != 0 {
        let old_csr = match core.control_and_status.read_csr(csr, core.privilege_level) {
            Ok(v) => v,
            Err(e) => {
                return Err(e);
            },
        };
        core.write_reg(instr.rd, old_csr);
    }
    match core.control_and_status.write_csr(csr, core.privilege_level, imm_val) {
        Ok(_) => Ok(()),
        Err(e) => Err(e),
    }
}

pub fn csrrsi(instr: &IInstruction, _bus: &mut Bus, core: &mut RVCore) -> (r: Result<(), Exception>)
    requires
        old(core).wf(),
        old(_bus).wf(),
        instr.wf(),
        instr.imm < 0x1000,
    ensures
        final(core).wf(),
        final(_bus).wf(),
        final(_bus)@ == old(_bus)@,
        csrrsi_step(*instr, old(core)@, final(core)@, r),
{
    let csr = instr.imm as usize;
    let imm_val = instr.rs1;

    let old_csr = match core.control_and_status.read_csr(csr, core.privilege_level) {
        Ok(v) => v,
        Err(e) => {
            return Err(e);
        },
    };
    core.write_reg(instr.rd, old_csr);

    if imm_val != 0 {
        let new_csr = old_csr | imm_val;
        match core.control_and_status.write_csr(csr, core.privilege_level, new_csr) {
            Ok(_) => Ok(()),
            Err(e) => Err(e),
        }
    } else {
        Ok(())
    }
}

pub fn csrrci(instr: &IInstruction, _bus: &mut Bus, core: &mut RVCore) -> (r: Result<(), Exception>)
    requires
        old(core).wf(),
        old(_bus).wf(),
        instr.wf(),
        instr.imm < 0x1000,
    ensures
        final(core).wf(),
        final(_bus).wf(),
        final(_bus)@ == old(_bus)@,
        csrrci_step(*instr, old(core)@, final(core)@, r),
{
    let csr = instr.imm as usize;
    let imm_val = instr.rs1;

    let old_csr = match core.control_and_status.read_csr(csr, core.privilege_level) {
        Ok(v) => v,
        Err(e) => {
            return Err(e);
        },
    };
    core.write_reg(instr.rd, old_csr);

    if imm_val != 0 {
        let new_csr = old_csr & !imm_val;
        match core.control_and_status.write_csr(csr, core.privilege_level, new_csr) {
            Ok(_) => Ok(()),
            Err(e) => Err(e),
        }
    } else {
        Ok(())
    }
}

} // verus!
