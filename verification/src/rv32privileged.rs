//! The privileged instructions: environment calls, breakpoints, and the
//! machine-level trap return. Supervisor trap return is a deliberate gap:
//! it is decoded and accepted but changes nothing yet.

use vstd::prelude::*;

use crate::bus::Bus;
use crate::csr::{spec_csr_read_checked, CsrModel, MEPC};
use crate::exception::{priv_num, spec_privilege_of, Exception, PrivilegeLevel};
use crate::mstatus::{bool_bit, mstatus_get, mstatus_set, MStatusField};
use crate::riscv_core::{CoreModel, IInstruction, RVCore};
use crate::word::w32;

verus! {

/// Step relation of `mret`: below Machine privilege it faults with
/// illegal-instruction; at Machine privilege it returns to the saved
/// exception program counter (minus the run loop's step), restores the
/// privilege level and interrupt-enable saved in `mstatus`, re-arms the
/// previous-interrupt-enable field, resets the previous-privilege field
/// to User, and drops the memory-privilege override unless it returns to
/// Machine.
pub open spec fn mret_step(c0: CoreModel, c1: CoreModel, r: Result<(), Exception>) -> bool {
    if priv_num(c0.privilege) < 3 {
        r == Err::<(), Exception>(Exception::IllegalInstruction(0)) && c1 == c0
    } else {
        let new_pc = w32(spec_csr_read_checked(c0.csr, MEPC) - 4);
        let m0 = c0.csr.mstatus;
        let mpp = mstatus_get(m0, MStatusField::Mpp);
        let mpie = mstatus_get(m0, MStatusField::Mpie) == 1;
        let new_priv = spec_privilege_of(mpp);
        let m1 = mstatus_set(m0, MStatusField::Mie, bool_bit(mpie));
        let m2 = mstatus_set(m1, MStatusField::Mpie, 1);
        let m3 = mstatus_set(m2, MStatusField::Mpp, 0);
        let m4 = if new_priv != PrivilegeLevel::Machine {
            mstatus_set(m3, MStatusField::Mprv, 0)
        } else {
            m3
        };
        &&& r == Ok::<(), Exception>(())
        &&& c1 == (CoreModel {
            pc: new_pc,
            privilege: new_priv,
            csr: (CsrModel { mstatus: m4, ..c0.csr }),
            ..c0
        })
    }
}

/// An environment call faults with the cause of the privilege level it
/// was made from; the trap engine turns it into a trap.
pub fn ecall(_instr: &IInstruction, _bus: &mut Bus, core: &mut RVCore) -> (r: Result<(), Exception>)
    requires
        old(core).wf(),
        old(_bus).wf(),
    ensures
        final(core).wf(),
        final(_bus).wf(),
        final(_bus)@ == old(_bus)@,
        final(core)@ == old(core)@,
        r == Err::<(), Exception>(
            match old(core)@.privilege {
                PrivilegeLevel::Machine => Exception::EnviromentCallFromMMode,
                PrivilegeLevel::Supervisor => Exception::EnviromentCallFromSMode,
                PrivilegeLevel::User => Exception::EnviromentCallFromUMode,
            },
        ),
{
    match core.privilege_level {
        PrivilegeLevel::Machine => Err(Exception::EnviromentCallFromMMode),
        PrivilegeLevel::Supervisor => Err(Exception::EnviromentCallFromSMode),
        PrivilegeLevel::User => Err(Exception::EnviromentCallFromUMode),
    }
}

/// A breakpoint faults with the breakpoint cause.
pub fn ebreak(_instr: &IInstruction, _bus: &mut Bus, core: &mut RVCore) -> (r: Result<
    (),
    Exception,
>)
    requires
        old(core).wf(),
        old(_bus).wf(),
    ensures
        final(core).wf(),
        final(_bus).wf(),
        final(_bus)@ == old(_bus)@,
        final(core)@ == old(core)@,
        r == Err::<(), Exception>(Exception::Breakpoint),
{
    Err(Exception::Breakpoint)
}

/// Machine trap return, per `mret_step`.
pub fn mret(_instr: &IInstruction, _bus: &mut Bus, core: &mut RVCore) -> (r: Result<(), Exception>)
    requires
        old(core).wf(),
        old(_bus).wf(),
    ensures
        final(core).wf(),
        final(_bus).wf(),
        final(_bus)@ == old(_bus)@,
        mret_step(old(core)@, final(core)@, r),
{
    let epc = match core.control_and_status.read_csr(MEPC, core.privilege_level) {
        Ok(v) => v,
        Err(e) => {
            return Err(e);
        },
    };
    proof {
        crate::word::lemma_wrapping_sub_w32(epc, 4);
    }
    core.pc = epc.wrapping_sub(4);

    let mstatus = core.control_and_status.get_mstatus_mut_ref(core.privilege_level);

    let mpp = mstatus.get_mpp();
    let mpie = mstatus.get_mpie();
    let mpp_y = PrivilegeLevel::new(mpp);

    mstatus.set_mie(mpie);
    core.privilege_level = mpp_y;
    let mstatus = core.control_and_status.get_mstatus_mut_ref(PrivilegeLevel::Machine);
    mstatus.set_mpie(true);
    mstatus.set_mpp(0b00);

    if mpp_y != PrivilegeLevel::Machine {
        let mstatus = core.control_and_status.get_mstatus_mut_ref(PrivilegeLevel::Machine);
        mstatus.set_mprv(false);
    }

    Ok(())
}

/// Supervisor trap return: a known gap, accepted as a no-op.
pub fn sret(_instr: &IInstruction, _bus: &mut Bus, core: &mut RVCore) -> (r: Result<(), Exception>)
    requires
        old(core).wf(),
        old(_bus).wf(),
    ensures
        final(core).wf(),
        final(_bus).wf(),
        final(_bus)@ == old(_bus)@,
        final(core)@ == old(core)@,
        r == Ok::<(), Exception>(()),
{
    Ok(())
}

} // verus!
