//! The control-and-status-register bank: 4096 words with named aliases,
//! per-register read masks and write transforms, privilege-gated access, and
//! the packed `mstatus` word. Contracts are stated over `CsrModel`, the
//! mathematical view of the bank.

use vstd::prelude::*;

use crate::exception::{priv_num, Exception, PrivilegeLevel};
use crate::interpreter::NUM_HARTS;
use crate::mstatus::{mstatus_set, MStatus, MStatusField};

verus! {

// Machine information and trap setup.
pub const MISA: usize = 0x301;

pub const MHARTID: usize = 0xF14;

pub const MSTATUS: usize = 0x300;

pub const MEDELEG: usize = 0x302;

pub const MIE: usize = 0x304;

pub const MIE_MASK: u32 = 0xFFFF2AAA;

pub const MTVEC: usize = 0x305;

pub const MSTATUSH: usize = 0x310;

pub const MSTATUSH_MASK: u32 = 0x6F0;

// Trap handling.
pub const MEPC: usize = 0x341;

pub const MCAUSE: usize = 0x342;

pub const MTVAL: usize = 0x343;

pub const MIP: usize = 0x344;

pub const MIP_MASK: u32 = 0xFFFF2AAA;

// Counters.
pub const MINSTRET: usize = 0xB02;

pub const MINSTRETH: usize = 0xB82;

// Debug.
pub const TSELECT: usize = 0x7A0;

// Supervisor views.
pub const SSTATUS: usize = 0x100;

pub const SSTATUS_MASK: u32 = 0x818DE762;

pub const SIE: usize = 0x104;

pub const SIE_MASK: u32 = 0xFFFF2222;

pub const SIP: usize = 0x144;

pub const SIP_MASK: u32 = 0xFFFF2222;

/// The value the `misa` register is reset to: RV32 base, Supervisor ISA,
/// and the I, M and A extensions.
pub const MISA_RESET: u32 = 0x40041101;

/// Mathematical view of the CSR bank: the backing array, the packed
/// `mstatus` word, and the flag that suppresses the next retire-counter
/// increment after an explicit counter write.
#[verifier::ext_equal]
pub struct CsrModel {
    pub regs: Seq<u32>,
    pub mstatus: u32,
    pub minstret_loaded: bool,
}

/// The privilege tier a register demands, encoded in bits 9:8 of its index.
pub open spec fn csr_priv_tier(csr: usize) -> usize {
    (csr / 0x100) % 4
}

/// The mutability tier of a register, encoded in bits 11:10 of its index;
/// tier 3 is read-only.
pub open spec fn csr_rw_tier(csr: usize) -> usize {
    (csr / 0x400) % 4
}

/// Whether privilege `level` may access a register.
pub open spec fn csr_accessible(csr: usize, level: PrivilegeLevel) -> bool {
    csr_priv_tier(csr) <= priv_num(level)
}

/// The value an unchecked (trap-path) read of a register yields: the packed
/// `mstatus` word and the masked alias registers are composed, every other
/// register reads its backing slot.
pub open spec fn spec_csr_read(m: CsrModel, csr: usize) -> u32 {
    if csr == MSTATUS {
        m.mstatus
    } else if csr == MSTATUSH {
        m.regs[MSTATUSH as int] & MSTATUSH_MASK
    } else if csr == MIP {
        m.regs[MIP as int] & MIP_MASK
    } else if csr == MIE {
        m.regs[MIE as int] & MIE_MASK
    } else if csr == SSTATUS {
        m.mstatus & SSTATUS_MASK
    } else if csr == SIP {
        m.regs[MIP as int] & SIP_MASK
    } else if csr == SIE {
        m.regs[MIE as int] & SIE_MASK
    } else {
        m.regs[csr as int]
    }
}

/// The value a privilege-checked read yields: as the unchecked read, except
/// that the debug trigger-select register always reads as all-ones.
pub open spec fn spec_csr_read_checked(m: CsrModel, csr: usize) -> u32 {
    if csr == TSELECT {
        u32::MAX
    } else {
        spec_csr_read(m, csr)
    }
}

/// The bank after a privilege-checked write: the packed `mstatus` word is
/// replaced whole, a write to either retire-counter half also arms the
/// just-loaded flag, the exception program counter is forced 4-byte
/// aligned, and every other register stores the word unchanged.
pub open spec fn spec_csr_write(m: CsrModel, csr: usize, val: u32) -> CsrModel {
    if csr == MSTATUS {
        CsrModel { mstatus: val, ..m }
    } else if csr == MINSTRET || csr == MINSTRETH {
        CsrModel { regs: m.regs.update(csr as int, val), minstret_loaded: true, ..m }
    } else if csr == MEPC {
        CsrModel { regs: m.regs.update(MEPC as int, val & 0xFFFFFFFCu32), ..m }
    } else {
        CsrModel { regs: m.regs.update(csr as int, val), ..m }
    }
}

/// The bank after an unchecked (trap-path) write: the packed `mstatus` word
/// is replaced whole, every other register stores the word unchanged.
pub open spec fn spec_csr_write_unchecked(m: CsrModel, csr: usize, val: u32) -> CsrModel {
    if csr == MSTATUS {
        CsrModel { mstatus: val, ..m }
    } else {
        CsrModel { regs: m.regs.update(csr as int, val), ..m }
    }
}

/// The 64-bit instruction-retire counter composed from its two halves.
pub open spec fn minstret64(m: CsrModel) -> int {
    m.regs[MINSTRET as int] + m.regs[MINSTRETH as int] * 0x1_0000_0000
}

/// Well-formedness of the bank: 4096 backing slots, and a hart identifier
/// that names an existing hart.
pub open spec fn csr_wf(m: CsrModel) -> bool {
    &&& m.regs.len() == 4096
    &&& m.regs[MHARTID as int] < NUM_HARTS as u32
}

/// The CSR bank of one hart.
pub struct ControlAndStatus {
    csrs: Vec<u32>,
    mstatus: MStatus,
    minstret_loaded: bool,
}

impl View for ControlAndStatus {
    type V = CsrModel;

    closed spec fn view(&self) -> CsrModel {
        CsrModel {
            regs: self.csrs@,
            mstatus: self.mstatus.0,
            minstret_loaded: self.minstret_loaded,
        }
    }
}

impl ControlAndStatus {
    /// Well-formedness of the bank.
    pub open spec fn wf(&self) -> bool {
        csr_wf(self@)
    }

    /// A bank at reset: `misa` advertises the implemented extensions, the
    /// hart-identifier register holds `hart_id`, `mstatus` starts with the
    /// previous-privilege field at Machine, and everything else is zero.
    pub fn new(hart_id: u32) -> (r: Self)
        requires
            hart_id < NUM_HARTS as u32,
        ensures
            r.wf(),
            r@.regs.len() == 4096,
            forall|i: int|
                0 <= i < 4096 && i != MISA as int && i != MHARTID as int ==> r@.regs[i] == 0,
            r@.regs[MISA as int] == MISA_RESET,
            r@.regs[MHARTID as int] == hart_id,
            r@.mstatus == mstatus_set(0, MStatusField::Mpp, 3),
            !r@.minstret_loaded,
    {
        let mut csrs: Vec<u32> = Vec::new();
        let mut i: usize = 0;
        while i < 4096
            invariant
                i <= 4096,
                csrs@.len() == i as int,
                forall|j: int| 0 <= j < i as int ==> csrs@[j] == 0,
            decreases 4096 - i,
        {
            csrs.push(0);
            i += 1;
        }
        csrs.set(MISA, MISA_RESET);
        csrs.set(MHARTID, hart_id);

        let mut mstatus = MStatus(0);
        mstatus.set_mpp(0b11);

        Self { csrs, mstatus, minstret_loaded: false }
    }

    /// Privilege-checked read: fails with illegal-instruction when the
    /// register's tier exceeds the caller's privilege, otherwise yields the
    /// composed register value.
    pub fn read_csr(&self, csr: usize, priv_level: PrivilegeLevel) -> (r: Result<u32, Exception>)
        requires
            self.wf(),
            csr < 4096,
        ensures
            r == (if csr_accessible(csr, priv_level) {
                Ok::<u32, Exception>(spec_csr_read_checked(self@, csr))
            } else {
                Err::<u32, Exception>(Exception::IllegalInstruction(0))
            }),
    {
        let csr_priv = (csr / 0x100) % 4;

        if csr_priv > priv_level.to_num() as usize {
            return Err(Exception::IllegalInstruction(0));
        }
        let val = match csr {
            MSTATUS => self.mstatus.0,
            MSTATUSH => self.csrs[MSTATUSH] & MSTATUSH_MASK,
            MIP => self.csrs[MIP] & MIP_MASK,
            MIE => self.csrs[MIE] & MIE_MASK,
            MHARTID => self.read_hartid(),
            TSELECT => u32::MAX,
            SSTATUS => self.mstatus.0 & SSTATUS_MASK,
            SIP => self.csrs[MIP] & SIP_MASK,
            SIE => self.csrs[MIE] & SIE_MASK,
            _ => self.csrs[csr],
        };

        Ok(val)
    }

    /// Unchecked read for the trap path only: no privilege gate, no debug
    /// register special case.
    pub fn read_csr_unchecked(&self, csr: usize) -> (r: u32)
        requires
            self.wf(),
            csr < 4096,
        ensures
            r == spec_csr_read(self@, csr),
    {
        match csr {
            MSTATUS => self.mstatus.0,
            MSTATUSH => self.csrs[MSTATUSH] & MSTATUSH_MASK,
            MIP => self.csrs[MIP] & MIP_MASK,
            MIE => self.csrs[MIE] & MIE_MASK,

            SSTATUS => self.mstatus.0 & SSTATUS_MASK,
            SIP => self.csrs[MIP] & SIP_MASK,
            SIE => self.csrs[MIE] & SIE_MASK,
            _ => self.csrs[csr],
        }
    }

    /// Privilege-checked write: fails with illegal-instruction when the
    /// register is read-only (mutability tier 3) or the caller's privilege
    /// is below the register's tier; otherwise applies the register's write
    /// transform.
    pub fn write_csr(&mut self, csr: usize, priv_level: PrivilegeLevel, val: u32) -> (r: Result<
        (),
        Exception,
    >)
        requires
            old(self).wf(),
            csr < 4096,
        ensures
            final(self).wf(),
            csr_rw_tier(csr) == 3 ==> r == Err::<(), Exception>(Exception::IllegalInstruction(0))
                && final(self)@ == old(self)@,
            csr_rw_tier(csr) != 3 && !csr_accessible(csr, priv_level) ==> r == Err::<(),
                Exception,
            >(Exception::IllegalInstruction(0)) && final(self)@ == old(self)@,
            csr_rw_tier(csr) != 3 && csr_accessible(csr, priv_level) ==> r == Ok::<(), Exception>(
                (),
            ) && final(self)@ == spec_csr_write(old(self)@, csr, val),
    {
        let csr_rw = (csr / 0x400) % 4;
        let csr_priv = (csr / 0x100) % 4;

        if csr_rw == 0b11 {
            return Err(Exception::IllegalInstruction(0));
        }
        if csr_priv > priv_level.to_num() as usize {
            return Err(Exception::IllegalInstruction(0));
        }
        proof {
            // A read-only index never names the hart-identifier register, so
            // the well-formedness bound on it survives every permitted write.
            assert(csr != MHARTID);
        }
        match csr {
            MSTATUS => self.mstatus.0 = val,
            MINSTRET | MINSTRETH => {
                self.minstret_loaded = true;
                self.csrs.set(csr, val);
            },
            MEPC => self.csrs.set(MEPC, val & 0xFFFFFFFC),
            _ => self.csrs.set(csr, val),
        }

        Ok(())
    }

    /// Unchecked write for the trap path only: no read-only gate, no
    /// privilege gate, no per-register transform beyond the packed
    /// `mstatus` word.
    pub fn write_csr_unchecked(&mut self, csr: usize, val: u32)
        requires
            old(self).wf(),
            csr < 4096,
            csr == MHARTID ==> val < NUM_HARTS as u32,
        ensures
            final(self).wf(),
            final(self)@ == spec_csr_write_unchecked(old(self)@, csr, val),
    {
        match csr {
            MSTATUS => self.mstatus.0 = val,
            _ => self.csrs.set(csr, val),
        }
    }

    /// Borrows the packed `mstatus` word, gated exactly like a direct read
    /// of its register index (Machine privilege).
    pub fn get_mstatus_ref(&self, priv_level: PrivilegeLevel) -> (r: Result<&MStatus, Exception>)
        ensures
            priv_num(priv_level) < 3 ==> r == Err::<&MStatus, Exception>(
                Exception::IllegalInstruction(0),
            ),
            priv_num(priv_level) == 3 ==> (r matches Ok(m) && m.0 == self@.mstatus),
    {
        if priv_level.to_num() < 3 {
            return Err(Exception::IllegalInstruction(0));
        }

        Ok(&self.mstatus)
    }

    /// Mutably borrows the packed `mstatus` word. The caller must already
    /// hold Machine privilege; the register bank and the just-loaded flag
    /// are untouched by whatever the borrower writes.
    pub fn get_mstatus_mut_ref(&mut self, priv_level: PrivilegeLevel) -> (r: &mut MStatus)
        requires
            priv_num(priv_level) == 3,
        ensures
            r.0 == old(self)@.mstatus,
            final(self)@.mstatus == final(r).0,
            final(self)@.regs == old(self)@.regs,
            final(self)@.minstret_loaded == old(self)@.minstret_loaded,
    {
        &mut self.mstatus
    }

    /// The hart identifier stored in its register.
    pub fn read_hartid(&self) -> (r: u32)
        requires
            self.wf(),
        ensures
            r == self@.regs[MHARTID as int],
            r < NUM_HARTS as u32,
    {
        self.csrs[MHARTID]
    }

    /// Advances the 64-bit retire counter by one, wrapping at 2^64, unless
    /// an explicit counter write armed the just-loaded flag, in which case
    /// the flag is consumed and the counter is left exactly as loaded.
    pub fn increment_minstret(&mut self)
        requires
            old(self).wf(),
        ensures
            final(self).wf(),
            old(self)@.minstret_loaded ==> final(self)@ == (CsrModel {
                minstret_loaded: false,
                ..old(self)@
            }),
            !old(self)@.minstret_loaded ==> {
                &&& minstret64(final(self)@) == (minstret64(old(self)@) + 1) % 0x1_0000_0000_0000_0000
                &&& final(self)@.regs =~= old(self)@.regs.update(
                    MINSTRET as int,
                    final(self)@.regs[MINSTRET as int],
                ).update(MINSTRETH as int, final(self)@.regs[MINSTRETH as int])
                &&& final(self)@.mstatus == old(self)@.mstatus
                &&& !final(self)@.minstret_loaded
            },
    {
        if self.minstret_loaded {
            self.minstret_loaded = false;
            return ;
        }
        let minstret = self.csrs[MINSTRET];
        let minstreth = self.csrs[MINSTRETH];

        let minstret_64: u64 = (minstret as u64) + (minstreth as u64) * 0x1_0000_0000;
        let new_minstret = minstret_64.wrapping_add(1);

        self.csrs.set(MINSTRET, (new_minstret % 0x1_0000_0000) as u32);
        self.csrs.set(MINSTRETH, (new_minstret / 0x1_0000_0000) as u32);
    }
}

} // verus!
