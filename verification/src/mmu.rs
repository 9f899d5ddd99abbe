//! A DRAM-only memory interface with the same byte/word contract shape as
//! the full bus, and the same per-hart reservation table.

use vstd::prelude::*;

use crate::bus::{DRAM_BASE, DRAM_END, DRAM_SIZE};
use crate::exception::Exception;
use crate::interpreter::NUM_HARTS;
use crate::word::{le32, wbyte};

verus! {

/// Mathematical view: the memory bytes and one optional reserved address
/// per hart.
#[verifier::ext_equal]
pub struct MmuModel {
    pub mem: Seq<u8>,
    pub reserved: Seq<Option<usize>>,
}

/// Well-formedness: a full-size memory and one reservation slot per hart.
pub open spec fn mmu_wf(m: MmuModel) -> bool {
    &&& m.mem.len() == DRAM_SIZE
    &&& m.reserved.len() == NUM_HARTS
}

/// The reservation table after a store to `address`: every hart whose
/// reserved address equals it loses its reservation.
pub open spec fn mmu_clear_reservations(rs: Seq<Option<usize>>, address: usize) -> Seq<
    Option<usize>,
> {
    Seq::new(rs.len(), |i: int| if rs[i] == Some(address) { None } else { rs[i] })
}

/// The reservation table after an aligned word store: each of the four
/// written byte addresses strips its matching reservations.
pub open spec fn mmu_clear_word_reservations(rs: Seq<Option<usize>>, address: usize) -> Seq<
    Option<usize>,
> {
    mmu_clear_reservations(
        mmu_clear_reservations(
            mmu_clear_reservations(
                mmu_clear_reservations(rs, address),
                (address + 1) as usize,
            ),
            (address + 2) as usize,
        ),
        (address + 3) as usize,
    )
}

/// One byte read: a DRAM address yields its byte, anything else faults.
pub open spec fn mmu_sread(m: MmuModel, address: int) -> Result<u8, Exception> {
    if DRAM_BASE as int <= address < DRAM_END as int {
        Ok(m.mem[address - DRAM_BASE as int])
    } else {
        Err(Exception::LoadAccessFault)
    }
}

/// One byte write: a DRAM store lands in memory and invalidates every
/// matching reservation, anything else faults.
pub open spec fn mmu_swrite(m: MmuModel, address: int, val: u8) -> (Result<(), Exception>, MmuModel) {
    if DRAM_BASE as int <= address < DRAM_END as int {
        (
            Ok(()),
            MmuModel {
                mem: m.mem.update(address - DRAM_BASE as int, val),
                reserved: mmu_clear_reservations(m.reserved, address as usize),
            },
        )
    } else {
        (Err(Exception::StoreAmoAccessFault), m)
    }
}

/// The memory of one machine.
pub struct Mmu {
    mem: Vec<u8>,
    reserved_addresses: Vec<Option<usize>>,
}

impl View for Mmu {
    type V = MmuModel;

    closed spec fn view(&self) -> MmuModel {
        MmuModel { mem: self.mem@, reserved: self.reserved_addresses@ }
    }
}

impl Mmu {
    /// Well-formedness.
    pub open spec fn wf(&self) -> bool {
        mmu_wf(self@)
    }

    /// A memory at reset: zeroed, with no reservations.
    pub fn new() -> (r: Self)
        ensures
            r.wf(),
            forall|j: int| 0 <= j < DRAM_SIZE as int ==> r@.mem[j] == 0,
            forall|h: int| 0 <= h < NUM_HARTS as int ==> r@.reserved[h] is None,
    {
        let mut mem: Vec<u8> = Vec::new();
        let mut i: usize = 0;
        while i < DRAM_SIZE
            invariant
                i <= DRAM_SIZE,
                mem@.len() == i as int,
                forall|j: int| 0 <= j < i as int ==> mem@[j] == 0,
            decreases DRAM_SIZE - i,
        {
            mem.push(0);
            i += 1;
        }
        let mut reserved_addresses: Vec<Option<usize>> = Vec::new();
        let mut h: usize = 0;
        while h < NUM_HARTS
            invariant
                h <= NUM_HARTS,
                reserved_addresses@.len() == h as int,
                forall|j: int| 0 <= j < h as int ==> reserved_addresses@[j] is None,
            decreases NUM_HARTS - h,
        {
            reserved_addresses.push(None);
            h += 1;
        }
        Self { mem, reserved_addresses }
    }

    /// Reads one byte, per `mmu_sread`.
    pub fn read_byte(&self, address: usize) -> (r: Result<u8, Exception>)
        requires
            self.wf(),
        ensures
            r == mmu_sread(self@, address as int),
    {
        if DRAM_BASE <= address && address < DRAM_END {
            Ok(self.mem[address - DRAM_BASE])
        } else {
            Err(Exception::LoadAccessFault)
        }
    }

    /// Writes one byte, per `mmu_swrite`: a DRAM store invalidates every
    /// reservation of that exact address.
    pub fn write_byte(&mut self, address: usize, val: u8) -> (r: Result<(), Exception>)
        requires
            old(self).wf(),
        ensures
            final(self).wf(),
            r == mmu_swrite(old(self)@, address as int, val).0,
            final(self)@ == mmu_swrite(old(self)@, address as int, val).1,
    {
        if DRAM_BASE <= address && address < DRAM_END {
            self.mem.set(address - DRAM_BASE, val);

            let mut i: usize = 0;
            while i < NUM_HARTS
                invariant
                    i <= NUM_HARTS,
                    old(self).wf(),
                    self.wf(),
                    self.mem@ == old(self)@.mem.update(address - DRAM_BASE as int, val),
                    self.reserved_addresses@.len() == NUM_HARTS as int,
                    forall|j: int|
                        0 <= j < i as int ==> self.reserved_addresses@[j] == mmu_clear_reservations(
                            old(self)@.reserved,
                            address,
                        )[j],
                    forall|j: int|
                        i as int <= j < NUM_HARTS as int ==> self.reserved_addresses@[j] == old(
                            self,
                        )@.reserved[j],
                decreases NUM_HARTS - i,
            {
                if self.is_address_reserved(i, address) {
                    self.invalidate_reserved_address(i);
                }
                i += 1;
            }
            proof {
                assert(self@.reserved =~= mmu_clear_reservations(old(self)@.reserved, address));
                assert(self@ =~= mmu_swrite(old(self)@, address as int, val).1);
            }
            Ok(())
        } else {
            Err(Exception::StoreAmoAccessFault)
        }
    }

    /// Reads an aligned 32-bit word from DRAM, little-endian; a misaligned
    /// address faults, any byte outside DRAM faults.
    pub fn read_word(&self, address: usize) -> (r: Result<u32, Exception>)
        requires
            self.wf(),
        ensures
            address % 4 != 0 ==> r == Err::<u32, Exception>(Exception::LoadAddressMisaligned),
            address % 4 == 0 && !(DRAM_BASE as int <= address as int && address as int + 3
                < DRAM_END as int) ==> r == Err::<u32, Exception>(Exception::LoadAccessFault),
            address % 4 == 0 && DRAM_BASE as int <= address as int && address as int + 3
                < DRAM_END as int ==> r == Ok::<u32, Exception>(
                le32(
                    self@.mem[address as int - DRAM_BASE as int],
                    self@.mem[address as int + 1 - DRAM_BASE as int],
                    self@.mem[address as int + 2 - DRAM_BASE as int],
                    self@.mem[address as int + 3 - DRAM_BASE as int],
                ),
            ),
    {
        if address % 4 != 0 {
            return Err(Exception::LoadAddressMisaligned);
        }
        proof {
            // An aligned address is at most `usize::MAX - 3` on any
            // platform width, so the three following byte addresses exist.
            assert(address + 3 <= usize::MAX) by (nonlinear_arith)
                requires
                    address % 4 == 0,
                    address <= usize::MAX,
            ;
        }
        let val_0 = self.read_byte(address)?;
        let val_1 = self.read_byte(address + 1)?;
        let val_2 = self.read_byte(address + 2)?;
        let val_3 = self.read_byte(address + 3)?;

        Ok(
            (val_0 as u32) + (val_1 as u32) * 0x100 + (val_2 as u32) * 0x1_0000 + (val_3 as u32)
                * 0x100_0000,
        )
    }

    /// Writes an aligned 32-bit word to DRAM, little-endian: the four
    /// bytes land in memory and each byte address strips its matching
    /// reservations. A misaligned address faults, an aligned address
    /// outside DRAM faults; both leave the memory untouched — alignment
    /// rules out a word that straddles the DRAM boundary, so a word
    /// store never partially completes.
    pub fn write_word(&mut self, address: usize, word: u32) -> (r: Result<(), Exception>)
        requires
            old(self).wf(),
        ensures
            final(self).wf(),
            address % 4 != 0 ==> r == Err::<(), Exception>(Exception::StoreAmoAddressMisaligned)
                && final(self)@ == old(self)@,
            address % 4 == 0 && DRAM_BASE as int <= address as int && address as int + 3
                < DRAM_END as int ==> r == Ok::<(), Exception>(()) && final(self)@.mem
                =~= old(self)@.mem.update(address as int - DRAM_BASE as int, wbyte(word, 0)).update(
                address as int + 1 - DRAM_BASE as int,
                wbyte(word, 1),
            ).update(address as int + 2 - DRAM_BASE as int, wbyte(word, 2)).update(
                address as int + 3 - DRAM_BASE as int,
                wbyte(word, 3),
            ) && final(self)@.reserved =~= mmu_clear_word_reservations(
                old(self)@.reserved,
                address,
            ),
            address % 4 == 0 && !(DRAM_BASE as int <= address as int && address as int + 3
                < DRAM_END as int) ==> r == Err::<(), Exception>(Exception::StoreAmoAccessFault)
                && final(self)@ == old(self)@,
    {
        if address % 4 != 0 {
            return Err(Exception::StoreAmoAddressMisaligned);
        }
        proof {
            assert(address + 3 <= usize::MAX) by (nonlinear_arith)
                requires
                    address % 4 == 0,
                    address <= usize::MAX,
            ;
            // Alignment keeps a word inside one region: the DRAM bounds
            // are multiples of four, so an aligned first byte inside DRAM
            // puts the whole word inside, and one outside puts it wholly
            // outside.
            assert((address as int) < DRAM_END as int ==> address as int + 3 < DRAM_END as int)
                by (nonlinear_arith)
                requires
                    address % 4 == 0,
            ;
        }
        self.write_byte(address, (word % 0x100) as u8)?;
        self.write_byte(address + 1, ((word / 0x100) % 0x100) as u8)?;
        self.write_byte(address + 2, ((word / 0x1_0000) % 0x100) as u8)?;
        let r = self.write_byte(address + 3, ((word / 0x100_0000) % 0x100) as u8);
        proof {
            if DRAM_BASE as int <= address as int && address as int + 3 < DRAM_END as int {
                assert(self@.reserved =~= mmu_clear_word_reservations(old(self)@.reserved, address));
            }
        }
        r
    }

    /// Records `address` as hart `hart_id`'s reservation, replacing any
    /// earlier one.
    pub fn reserve_address(&mut self, hart_id: usize, address: usize)
        requires
            old(self).wf(),
            hart_id < NUM_HARTS,
        ensures
            final(self).wf(),
            final(self)@ == (MmuModel {
                reserved: old(self)@.reserved.update(hart_id as int, Some(address)),
                ..old(self)@
            }),
    {
        self.reserved_addresses.set(hart_id, Some(address));
    }

    /// Drops hart `hart_id`'s reservation, if any.
    pub fn invalidate_reserved_address(&mut self, hart_id: usize)
        requires
            old(self).wf(),
            hart_id < NUM_HARTS,
        ensures
            final(self).wf(),
            final(self)@ == (MmuModel {
                reserved: old(self)@.reserved.update(hart_id as int, None),
                ..old(self)@
            }),
    {
        self.reserved_addresses.set(hart_id, None);
    }

    /// Whether hart `hart_id` currently holds exactly `address` reserved.
    pub fn is_address_reserved(&self, hart_id: usize, address: usize) -> (r: bool)
        requires
            self.wf(),
            hart_id < NUM_HARTS,
        ensures
            r == (self@.reserved[hart_id as int] == Some(address)),
    {
        if let Some(v) = self.reserved_addresses[hart_id] {
            v == address
        } else {
            false
        }
    }
}

} // verus!
