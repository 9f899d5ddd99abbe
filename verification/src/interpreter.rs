//! The interpreter shell: one hart, one bus, and the fetch / decode /
//! execute / trap cycle that drives them.

use vstd::prelude::*;

use crate::bus::{sread4, Bus, BusModel, DRAM_BASE, DRAM_END};
use crate::exception::Exception;
use crate::riscv_core::{spec_decode, spec_trap, CoreModel, InstructionType, RVCore};
use crate::word::le32;

verus! {

/// How many harts share the memory and the reservation table. A single
/// hart is driven; the reservation table is indexed by hart identifier so
/// that more can be added.
pub const NUM_HARTS: usize = 1;

/// The program-counter value at which `run` stops fetching: the test
/// harness's parking address, reached when a compliance image is done.
pub const RUN_HALT_PC: u32 = 0x8000004C;

/// The largest number of cycles one `run` call executes before giving
/// up on a guest that never reaches the halt address.
pub const RUN_FUEL: u64 = 1_000_000;

/// Mathematical view of the whole machine.
#[verifier::ext_equal]
pub struct InterpModel {
    pub bus: BusModel,
    pub core: CoreModel,
}

/// The outcome of one instruction fetch: a program counter that is not a
/// multiple of four raises the instruction-address-misaligned fault
/// before any byte is touched; any failing byte read surfaces as an
/// instruction access fault, with the side effects of the byte reads
/// that succeeded persisting.
pub open spec fn spec_fetch(m: InterpModel) -> (Result<u32, Exception>, BusModel) {
    if m.core.pc % 4 != 0 {
        (Err(Exception::InstructionAddressMisaligned), m.bus)
    } else {
        let (r, b1) = sread4(m.bus, m.core.pc as int);
        match r {
            Ok(v) => (Ok(v), b1),
            Err(_) => (Err(Exception::InstructionAccessFault), b1),
        }
    }
}

/// How one retirement of the 64-bit instruction counter relates the CSR
/// bank before and after: the counter advances by one, wrapping, unless
/// an explicit counter write armed the just-loaded flag, which is then
/// consumed instead.
pub open spec fn retire_rel(c1: crate::csr::CsrModel, c2: crate::csr::CsrModel) -> bool {
    if c1.minstret_loaded {
        c2 == (crate::csr::CsrModel { minstret_loaded: false, ..c1 })
    } else {
        &&& c2.mstatus == c1.mstatus
        &&& !c2.minstret_loaded
        &&& crate::csr::minstret64(c2) == (crate::csr::minstret64(c1) + 1)
            % 0x1_0000_0000_0000_0000
        &&& c2.regs == c1.regs.update(
            crate::csr::MINSTRET as int,
            c2.regs[crate::csr::MINSTRET as int],
        ).update(crate::csr::MINSTRETH as int, c2.regs[crate::csr::MINSTRETH as int])
    }
}

/// The run loop's book-keeping after a successfully executed instruction:
/// the program counter advances one instruction width and the retire
/// counter steps.
pub open spec fn advance_rel(c1: CoreModel, c2: CoreModel) -> bool {
    &&& c2.pc == crate::word::w32(c1.pc + 4)
    &&& c2.regs == c1.regs
    &&& c2.privilege == c1.privilege
    &&& retire_rel(c1.csr, c2.csr)
}

/// What one cycle does after its fetch: a fetch fault or an undecodable
/// word traps; a decoded instruction executes, then either the counter
/// advances (success) or the fault traps on the post-execute state.
pub open spec fn cycle_rest_rel(
    mf: InterpModel,
    r: Result<u32, Exception>,
    mm: InterpModel,
) -> bool {
    match r {
        Err(e) => mm.bus == mf.bus && mm.core == spec_trap(e, mf.core),
        Ok(w) => match spec_decode(w) {
            None => mm.bus == mf.bus && mm.core == spec_trap(
                Exception::IllegalInstruction(w),
                mf.core,
            ),
            Some(i) => exists|c1: CoreModel, r2: Result<(), Exception>|
                {
                    &&& #[trigger] crate::riscv_core::instr_step(i, mf.core, mf.bus, c1, mm.bus, r2)
                    &&& match r2 {
                        Ok(_) => advance_rel(c1, mm.core),
                        Err(e) => mm.core == spec_trap(e, c1),
                    }
                },
        },
    }
}

/// The run loop's whole behaviour, relationally: starting at `m0` with
/// `fuel` cycles left, the loop can end at `m1`. Exhausted fuel stops on
/// the spot; otherwise a fetch happens, the loop parks if the program
/// counter sits at the halt address, and else the cycle completes and
/// the chain continues.
pub open spec fn run_rel(m0: InterpModel, m1: InterpModel, fuel: nat) -> bool
    decreases fuel,
{
    if fuel == 0 {
        m1 == m0
    } else {
        let (r, b1) = spec_fetch(m0);
        let mf = InterpModel { bus: b1, core: m0.core };
        if m0.core.pc == RUN_HALT_PC {
            m1 == mf
        } else {
            exists|mm: InterpModel|
                #[trigger] cycle_rest_rel(mf, r, mm) && run_rel(mm, m1, (fuel - 1) as nat)
        }
    }
}

/// One hart together with its bus.
pub struct Interpreter {
    pub bus: Bus,
    pub core: RVCore,
}

impl View for Interpreter {
    type V = InterpModel;

    open spec fn view(&self) -> InterpModel {
        InterpModel { bus: self.bus@, core: self.core@ }
    }
}

impl Interpreter {
    /// Well-formedness of the machine.
    pub open spec fn wf(&self) -> bool {
        &&& crate::bus::bus_wf(self@.bus)
        &&& crate::riscv_core::core_wf(self@.core)
    }

    /// A machine at reset: zeroed memories and registers, the program
    /// counter at the DRAM base, Machine privilege, no reservations, and
    /// a CSR bank at its reset state — `misa` advertising the implemented
    /// extensions, the hart identifier zero, the packed `mstatus` with
    /// the previous-privilege field at Machine, and every other slot
    /// zero.
    pub fn new() -> (r: Self)
        ensures
            r.wf(),
            r@.core.pc == 0x80000000u32,
            r@.core.privilege == crate::exception::PrivilegeLevel::Machine,
            forall|j: int| 0 <= j < 31 ==> r@.core.regs[j] == 0,
            forall|j: int| 0 <= j < crate::bus::DRAM_SIZE as int ==> r@.bus.dram[j] == 0,
            forall|j: int| 0 <= j < crate::bus::ROM_SIZE as int ==> r@.bus.rom[j] == 0,
            forall|h: int| 0 <= h < NUM_HARTS as int ==> r@.bus.reserved[h] is None,
            r@.bus.uart.out_data == Seq::<u8>::empty(),
            !r@.bus.uart.interrupt,
            forall|i: int|
                0 <= i < 4096 && i != crate::csr::MISA as int && i != crate::csr::MHARTID as int
                    ==> r@.core.csr.regs[i] == 0,
            r@.core.csr.regs[crate::csr::MISA as int] == crate::csr::MISA_RESET,
            r@.core.csr.regs[crate::csr::MHARTID as int] == 0,
            r@.core.csr.mstatus == crate::mstatus::mstatus_set(0, crate::mstatus::MStatusField::Mpp, 3),
            !r@.core.csr.minstret_loaded,
    {
        Self { bus: Bus::new(), core: RVCore::new() }
    }

    /// Fetches the instruction word at the program counter, per
    /// `spec_fetch`: a misaligned counter is the misalignment fault, an
    /// unreadable one the access fault.
    pub fn fetch(&mut self) -> (r: Result<u32, Exception>)
        requires
            old(self).wf(),
        ensures
            final(self).wf(),
            r == spec_fetch(old(self)@).0,
            final(self)@.bus == spec_fetch(old(self)@).1,
            final(self)@.core == old(self)@.core,
    {
        if self.core.pc % 4 != 0 {
            return Err(Exception::InstructionAddressMisaligned);
        }
        match self.bus.read_word(self.core.pc as usize) {
            Ok(val) => Ok(val),
            Err(_) => Err(Exception::InstructionAccessFault),
        }
    }

    /// Decodes a fetched word through the core's decode table.
    pub fn decode(&mut self, instr: u32) -> (r: Option<InstructionType>)
        ensures
            r == spec_decode(instr),
            r matches Some(i) ==> i.wf(),
            final(self)@ == old(self)@,
    {
        self.core.decode(instr)
    }

    /// The fetch / decode / execute / trap cycle: every fault becomes a
    /// trap and fetching resumes at the redirected program counter. The
    /// retire counter advances once per successfully executed
    /// instruction. The loop parks when the program counter reaches
    /// `RUN_HALT_PC`, or after `RUN_FUEL` cycles for a guest that never
    /// gets there.
    pub fn run(&mut self)
        requires
            old(self).wf(),
        ensures
            final(self).wf(),
            run_rel(old(self)@, final(self)@, RUN_FUEL as nat),
    {
        let mut fuel: u64 = RUN_FUEL;
        loop
            invariant
                self.wf(),
                fuel <= RUN_FUEL,
                forall|m1: InterpModel|
                    run_rel(self@, m1, fuel as nat) ==> #[trigger] run_rel(
                        old(self)@,
                        m1,
                        RUN_FUEL as nat,
                    ),
            ensures
                self.wf(),
                run_rel(old(self)@, self@, RUN_FUEL as nat),
            decreases fuel,
        {
            let ghost m_entry = self@;
            if fuel == 0 {
                proof {
                    assert(run_rel(m_entry, m_entry, 0));
                }
                break ;
            }
            fuel = fuel - 1;

            let instr_bytes = self.fetch();
            let ghost mf = self@;

            if self.core.pc == RUN_HALT_PC {
                proof {
                    assert(run_rel(m_entry, mf, (fuel + 1) as nat));
                }
                break ;
            }
            match instr_bytes {
                Ok(fetched) => {
                    let instr = self.decode(fetched);

                    if let Some(instruction) = instr {
                        let ghost c_pre = self@.core;
                        let ghost b_pre = self@.bus;
                        match instruction.execute(&mut self.bus, &mut self.core) {
                            Ok(_) => {
                                let ghost c1 = self@.core;
                                self.core.pc = self.core.pc.wrapping_add(4);
                                proof {
                                    crate::word::lemma_wrapping_add_w32(c1.pc, 4);
                                }
                                self.core.control_and_status.increment_minstret();
                                proof {
                                    assert(crate::riscv_core::instr_step(
                                        instruction,
                                        mf.core,
                                        mf.bus,
                                        c1,
                                        self@.bus,
                                        Ok::<(), Exception>(()),
                                    ));
                                    assert(advance_rel(c1, self@.core));
                                    assert(cycle_rest_rel(mf, Ok(fetched), self@));
                                }
                            },
                            Err(execution_exception) => {
                                let ghost c1 = self@.core;
                                execution_exception.trap(&mut self.core);
                                proof {
                                    assert(crate::riscv_core::instr_step(
                                        instruction,
                                        mf.core,
                                        mf.bus,
                                        c1,
                                        self@.bus,
                                        Err::<(), Exception>(execution_exception),
                                    ));
                                    assert(cycle_rest_rel(mf, Ok(fetched), self@));
                                }
                            },
                        }
                    } else {
                        let exc = Exception::IllegalInstruction(fetched);
                        exc.trap(&mut self.core);
                        proof {
                            assert(cycle_rest_rel(mf, Ok(fetched), self@));
                        }
                    }
                },
                Err(fetch_exception) => {
                    fetch_exception.trap(&mut self.core);
                    proof {
                        assert(cycle_rest_rel(mf, Err(fetch_exception), self@));
                    }
                },
            }
            proof {
                let m_now = self@;
                assert forall|m1: InterpModel| run_rel(m_now, m1, fuel as nat) implies #[trigger]
                    run_rel(old(self)@, m1, RUN_FUEL as nat) by {
                    assert(cycle_rest_rel(mf, spec_fetch(m_entry).0, m_now));
                    assert(run_rel(m_entry, m1, (fuel + 1) as nat));
                };
            }
        }
    }

    /// The little-endian word at DRAM address `to_host`: the compliance
    /// harness's completion signal, 1 meaning pass.
    pub fn read_test_result(&self, to_host: usize) -> (r: u32)
        requires
            self.wf(),
            DRAM_BASE <= to_host,
            to_host + 3 < DRAM_END,
        ensures
            r == le32(
                self@.bus.dram[to_host as int - DRAM_BASE as int],
                self@.bus.dram[to_host as int + 1 - DRAM_BASE as int],
                self@.bus.dram[to_host as int + 2 - DRAM_BASE as int],
                self@.bus.dram[to_host as int + 3 - DRAM_BASE as int],
            ),
    {
        let val_1 = self.bus.dram_byte(to_host);
        let val_2 = self.bus.dram_byte(to_host + 1);
        let val_3 = self.bus.dram_byte(to_host + 2);
        let val_4 = self.bus.dram_byte(to_host + 3);

        (val_1 as u32) + (val_2 as u32) * 0x100 + (val_3 as u32) * 0x1_0000 + (val_4 as u32)
            * 0x100_0000
    }
}

} // verus!
