//! The memory bus: DRAM, ROM and the memory-mapped UART behind one byte-
//! granular address decoder, plus the per-hart reservation table that backs
//! the load-reserved / store-conditional instructions. Contracts are stated
//! over `BusModel` and the step functions `sread` / `swrite`, which thread
//! the device side effects of each byte access.

use vstd::prelude::*;

use crate::exception::Exception;
use crate::interpreter::NUM_HARTS;
use crate::uart_16550::{spec_uart_read, spec_uart_write, uart_wf, Uart16550, UartModel};
use crate::word::{le32, wbyte};

verus! {

pub const DRAM_BASE: usize = 0x80000000;

pub const DRAM_SIZE: usize = 8 * 1024 * 1024;

pub const DRAM_END: usize = DRAM_BASE + DRAM_SIZE;

pub const ROM_BASE: usize = 0x00001000;

pub const ROM_SIZE: usize = 0x00001000;

pub const ROM_END: usize = ROM_BASE + ROM_SIZE;

pub const UART_BASE: usize = 0x10000000;

pub const UART_SIZE: usize = 8;

pub const UART_END: usize = UART_BASE + UART_SIZE;

/// Mathematical view of the bus: both memories, the UART, and one
/// optional reserved address per hart.
#[verifier::ext_equal]
pub struct BusModel {
    pub dram: Seq<u8>,
    pub rom: Seq<u8>,
    pub uart: UartModel,
    pub reserved: Seq<Option<usize>>,
}

/// Well-formedness: memories of their fixed sizes, a well-formed UART,
/// and one reservation slot per hart.
pub open spec fn bus_wf(m: BusModel) -> bool {
    &&& m.dram.len() == DRAM_SIZE
    &&& m.rom.len() == ROM_SIZE
    &&& uart_wf(m.uart)
    &&& m.reserved.len() == NUM_HARTS
}

/// The reservation table after a store to `address`: every hart whose
/// reserved address equals it loses its reservation.
pub open spec fn spec_clear_reservations(rs: Seq<Option<usize>>, address: usize) -> Seq<
    Option<usize>,
> {
    Seq::new(rs.len(), |i: int| if rs[i] == Some(address) { None } else { rs[i] })
}

/// One byte read: the value it yields and the bus it leaves behind.
/// DRAM and ROM read their byte with no side effect, the UART applies its
/// register-read semantics, and every other address faults.
pub open spec fn sread(m: BusModel, address: int) -> (Result<u8, Exception>, BusModel) {
    if DRAM_BASE as int <= address < DRAM_END as int {
        (Ok(m.dram[address - DRAM_BASE as int]), m)
    } else if ROM_BASE as int <= address < ROM_END as int {
        (Ok(m.rom[address - ROM_BASE as int]), m)
    } else if UART_BASE as int <= address < UART_END as int {
        let (v, u) = spec_uart_read(m.uart, (address - UART_BASE as int) as usize);
        (Ok(v), BusModel { uart: u, ..m })
    } else {
        (Err(Exception::LoadAccessFault), m)
    }
}

/// One byte write: the outcome and the bus it leaves behind. A DRAM store
/// lands in memory and invalidates every matching reservation, a UART
/// store applies the register-write semantics, and every other address —
/// ROM included — faults.
pub open spec fn swrite(m: BusModel, address: int, val: u8) -> (Result<(), Exception>, BusModel) {
    if DRAM_BASE as int <= address < DRAM_END as int {
        (
            Ok(()),
            BusModel {
                dram: m.dram.update(address - DRAM_BASE as int, val),
                reserved: spec_clear_reservations(m.reserved, address as usize),
                ..m
            },
        )
    } else if UART_BASE as int <= address < UART_END as int {
        (
            Ok(()),
            BusModel { uart: spec_uart_write(m.uart, (address - UART_BASE as int) as usize, val), ..m },
        )
    } else {
        (Err(Exception::StoreAmoAccessFault), m)
    }
}

/// Four byte reads at consecutive addresses, assembled little-endian.
/// The partial side effects of the reads that succeeded persist even when
/// a later one faults.
pub open spec fn sread4(m: BusModel, address: int) -> (Result<u32, Exception>, BusModel) {
    let (r0, m0) = sread(m, address);
    match r0 {
        Err(e) => (Err(e), m0),
        Ok(b0) => {
            let (r1, m1) = sread(m0, address + 1);
            match r1 {
                Err(e) => (Err(e), m1),
                Ok(b1) => {
                    let (r2, m2) = sread(m1, address + 2);
                    match r2 {
                        Err(e) => (Err(e), m2),
                        Ok(b2) => {
                            let (r3, m3) = sread(m2, address + 3);
                            match r3 {
                                Err(e) => (Err(e), m3),
                                Ok(b3) => (Ok(le32(b0, b1, b2, b3)), m3),
                            }
                        },
                    }
                },
            }
        },
    }
}

/// A word split into its little-endian bytes and written at consecutive
/// addresses. The bytes already stored persist even when a later byte
/// write faults.
pub open spec fn swrite4(m: BusModel, address: int, word: u32) -> (
    Result<(), Exception>,
    BusModel,
) {
    let (r0, m0) = swrite(m, address, wbyte(word, 0));
    match r0 {
        Err(e) => (Err(e), m0),
        Ok(_) => {
            let (r1, m1) = swrite(m0, address + 1, wbyte(word, 1));
            match r1 {
                Err(e) => (Err(e), m1),
                Ok(_) => {
                    let (r2, m2) = swrite(m1, address + 2, wbyte(word, 2));
                    match r2 {
                        Err(e) => (Err(e), m2),
                        Ok(_) => swrite(m2, address + 3, wbyte(word, 3)),
                    }
                },
            }
        },
    }
}

/// Law: a store to a DRAM address some hart holds reserved succeeds and
/// strips exactly that reservation, so a later store-conditional on it
/// must fail.
pub proof fn lemma_write_invalidates_reservation(m: BusModel, hart: int, address: int, val: u8)
    requires
        bus_wf(m),
        0 <= hart < NUM_HARTS as int,
        DRAM_BASE as int <= address < DRAM_END as int,
        m.reserved[hart] == Some(address as usize),
    ensures
        swrite(m, address, val).0 == Ok::<(), Exception>(()),
        swrite(m, address, val).1.reserved[hart] is None,
{
}

/// The bus of one machine.
pub struct Bus {
    dram: Vec<u8>,
    rom: Vec<u8>,
    pub uart: Uart16550,
    reserved_addresses: Vec<Option<usize>>,
}

impl View for Bus {
    type V = BusModel;

    closed spec fn view(&self) -> BusModel {
        BusModel {
            dram: self.dram@,
            rom: self.rom@,
            uart: self.uart@,
            reserved: self.reserved_addresses@,
        }
    }
}

/// A vector of `n` zero bytes.
fn zero_bytes(n: usize) -> (r: Vec<u8>)
    ensures
        r@.len() == n as int,
        forall|j: int| 0 <= j < n as int ==> r@[j] == 0,
{
    let mut v: Vec<u8> = Vec::new();
    let mut i: usize = 0;
    while i < n
        invariant
            i <= n,
            v@.len() == i as int,
            forall|j: int| 0 <= j < i as int ==> v@[j] == 0,
        decreases n - i,
    {
        v.push(0);
        i += 1;
    }
    v
}

impl Bus {
    /// Well-formedness of the bus.
    pub open spec fn wf(&self) -> bool {
        bus_wf(self@)
    }

    /// A bus at reset: zeroed DRAM and ROM, a UART at reset, and no
    /// reservations.
    pub fn new() -> (r: Self)
        ensures
            r.wf(),
            forall|j: int| 0 <= j < DRAM_SIZE as int ==> r@.dram[j] == 0,
            forall|j: int| 0 <= j < ROM_SIZE as int ==> r@.rom[j] == 0,
            forall|h: int| 0 <= h < NUM_HARTS as int ==> r@.reserved[h] is None,
            r@.uart.out_data =~= Seq::<u8>::empty(),
            !r@.uart.interrupt,
    {
        let dram = zero_bytes(DRAM_SIZE);
        let rom = zero_bytes(ROM_SIZE);
        let mut reserved_addresses: Vec<Option<usize>> = Vec::new();
        let mut i: usize = 0;
        while i < NUM_HARTS
            invariant
                i <= NUM_HARTS,
                reserved_addresses@.len() == i as int,
                forall|j: int| 0 <= j < i as int ==> reserved_addresses@[j] is None,
            decreases NUM_HARTS - i,
        {
            reserved_addresses.push(None);
            i += 1;
        }
        Self { dram, rom, uart: Uart16550::new(), reserved_addresses }
    }

    /// Reads one byte through the address decoder, per `sread`.
    pub fn read_byte(&mut self, address: usize) -> (r: Result<u8, Exception>)
        requires
            old(self).wf(),
        ensures
            final(self).wf(),
            r == sread(old(self)@, address as int).0,
            final(self)@ == sread(old(self)@, address as int).1,
    {
        if DRAM_BASE <= address && address < DRAM_END {
            Ok(self.dram[address - DRAM_BASE])
        } else if ROM_BASE <= address && address < ROM_END {
            Ok(self.rom[address - ROM_BASE])
        } else if UART_BASE <= address && address < UART_END {
            Ok(self.uart.read(address - UART_BASE))
        } else {
            Err(Exception::LoadAccessFault)
        }
    }

    /// Writes one byte through the address decoder, per `swrite`: a DRAM
    /// store invalidates every reservation of that exact address.
    pub fn write_byte(&mut self, address: usize, val: u8) -> (r: Result<(), Exception>)
        requires
            old(self).wf(),
        ensures
            final(self).wf(),
            r == swrite(old(self)@, address as int, val).0,
            final(self)@ == swrite(old(self)@, address as int, val).1,
    {
        if DRAM_BASE <= address && address < DRAM_END {
            self.dram.set(address - DRAM_BASE, val);

            let mut i: usize = 0;
            while i < NUM_HARTS
                invariant
                    i <= NUM_HARTS,
                    old(self).wf(),
                    self.wf(),
                    self.dram@ == old(self)@.dram.update(address - DRAM_BASE as int, val),
                    self.rom@ == old(self)@.rom,
                    self.uart@ == old(self)@.uart,
                    self.reserved_addresses@.len() == NUM_HARTS as int,
                    forall|j: int|
                        0 <= j < i as int ==> self.reserved_addresses@[j] == spec_clear_reservations(
                            old(self)@.reserved,
                            address,
                        )[j],
                    forall|j: int|
                        i as int <= j < NUM_HARTS as int ==> self.reserved_addresses@[j] == old(
                            self,
                        )@.reserved[j],
                decreases NUM_HARTS - i,
            {
                if self.is_address_reserved(i, address) {
                    self.invalidate_reserved_address(i);
                } else {
                    proof {
                        assert(self@.reserved[i as int] != Some(address));
                    }
                }
                proof {
                    assert(self.reserved_addresses@[i as int] == spec_clear_reservations(
                        old(self)@.reserved,
                        address,
                    )[i as int]);
                }
                i += 1;
            }
            proof {
                assert(self@.reserved =~= spec_clear_reservations(old(self)@.reserved, address));
                assert(self@ =~= swrite(old(self)@, address as int, val).1);
            }
            Ok(())
        } else if UART_BASE <= address && address < UART_END {
            self.uart.write(address - UART_BASE, val);
            Ok(())
        } else {
            Err(Exception::StoreAmoAccessFault)
        }
    }

    /// Reads an aligned 32-bit word as four little-endian byte reads, per
    /// `sread4`; a misaligned address faults without touching anything.
    pub fn read_word(&mut self, address: usize) -> (r: Result<u32, Exception>)
        requires
            old(self).wf(),
        ensures
            final(self).wf(),
            address % 4 != 0 ==> r == Err::<u32, Exception>(Exception::LoadAddressMisaligned)
                && final(self)@ == old(self)@,
            address % 4 == 0 ==> r == sread4(old(self)@, address as int).0 && final(self)@
                == sread4(old(self)@, address as int).1,
    {
        if address % 4 != 0 {
            return Err(Exception::LoadAddressMisaligned);
        }
        proof {
            // An aligned address is at most `usize::MAX - 3` on any
            // platform width, so the three following byte addresses exist.
            assert(address + 3 <= usize::MAX) by (nonlinear_arith)
                requires
                    address % 4 == 0,
                    address <= usize::MAX,
            ;
        }
        let val_0 = self.read_byte(address)?;
        let val_1 = self.read_byte(address + 1)?;
        let val_2 = self.read_byte(address + 2)?;
        let val_3 = self.read_byte(address + 3)?;

        Ok(
            (val_0 as u32) + (val_1 as u32) * 0x100 + (val_2 as u32) * 0x1_0000 + (val_3 as u32)
                * 0x100_0000,
        )
    }

    /// Writes an aligned 32-bit word as four little-endian byte writes, per
    /// `swrite4`; a misaligned address faults without touching anything.
    pub fn write_word(&mut self, address: usize, word: u32) -> (r: Result<(), Exception>)
        requires
            old(self).wf(),
        ensures
            final(self).wf(),
            address % 4 != 0 ==> r == Err::<(), Exception>(Exception::StoreAmoAddressMisaligned)
                && final(self)@ == old(self)@,
            address % 4 == 0 ==> r == swrite4(old(self)@, address as int, word).0 && final(self)@
                == swrite4(old(self)@, address as int, word).1,
    {
        if address % 4 != 0 {
            return Err(Exception::StoreAmoAddressMisaligned);
        }
        proof {
            assert(address + 3 <= usize::MAX) by (nonlinear_arith)
                requires
                    address % 4 == 0,
                    address <= usize::MAX,
            ;
        }
        let bytes = [
            (word % 0x100) as u8,
            ((word / 0x100) % 0x100) as u8,
            ((word / 0x1_0000) % 0x100) as u8,
            ((word / 0x100_0000) % 0x100) as u8,
        ];
        self.write_byte(address, bytes[0])?;
        self.write_byte(address + 1, bytes[1])?;
        self.write_byte(address + 2, bytes[2])?;
        self.write_byte(address + 3, bytes[3])
    }

    /// Records `address` as hart `hart_id`'s reservation, replacing any
    /// earlier one.
    pub fn reserve_address(&mut self, hart_id: usize, address: usize)
        requires
            old(self).wf(),
            hart_id < NUM_HARTS,
        ensures
            final(self).wf(),
            final(self)@ == (BusModel {
                reserved: old(self)@.reserved.update(hart_id as int, Some(address)),
                ..old(self)@
            }),
    {
        self.reserved_addresses.set(hart_id, Some(address));
    }

    /// Drops hart `hart_id`'s reservation, if any.
    pub fn invalidate_reserved_address(&mut self, hart_id: usize)
        requires
            old(self).wf(),
            hart_id < NUM_HARTS,
        ensures
            final(self).wf(),
            final(self)@ == (BusModel {
                reserved: old(self)@.reserved.update(hart_id as int, None),
                ..old(self)@
            }),
    {
        self.reserved_addresses.set(hart_id, None);
    }

    /// Whether hart `hart_id` currently holds exactly `address` reserved.
    pub fn is_address_reserved(&self, hart_id: usize, address: usize) -> (r: bool)
        requires
            self.wf(),
            hart_id < NUM_HARTS,
        ensures
            r == (self@.reserved[hart_id as int] == Some(address)),
    {
        if let Some(v) = self.reserved_addresses[hart_id] {
            v == address
        } else {
            false
        }
    }

    /// One DRAM byte, read without going through the decoder; the test
    /// harness uses it to inspect the completion word.
    pub(crate) fn dram_byte(&self, address: usize) -> (r: u8)
        requires
            self.wf(),
            DRAM_BASE <= address < DRAM_END,
        ensures
            r == self@.dram[address - DRAM_BASE as int],
    {
        self.dram[address - DRAM_BASE]
    }
}

} // verus!
