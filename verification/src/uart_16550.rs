//! A 16550-style UART modelled as plain state: eight device registers, a
//! pending-interrupt flag, and a buffer of the bytes written to the
//! transmit register. The surrounding program drains that buffer to its
//! console and feeds received bytes in through `push_input`; the core only
//! ever touches the device through byte reads and writes.

use vstd::prelude::*;

verus! {

/// Index of the receive/transmit holding register.
pub const UART_RHR_THR: usize = 0;

/// Index of the line-status register.
pub const UART_LSR: usize = 5;

/// Line-status bit: receive data ready.
pub const UART_LSR_RX: u8 = 1;

/// Line-status bit: transmit holding register empty.
pub const UART_LSR_TX: u8 = 0x20;

/// Mathematical view of the device: register bytes, pending-interrupt
/// flag, and the bytes written out so far (oldest first).
#[verifier::ext_equal]
pub struct UartModel {
    pub regs: Seq<u8>,
    pub interrupt: bool,
    pub out_data: Seq<u8>,
}

/// Well-formedness: exactly eight device registers.
pub open spec fn uart_wf(m: UartModel) -> bool {
    m.regs.len() == 8
}

/// The value a read of register `address` yields, and the device state it
/// leaves behind: reading the receive register clears the data-ready bit
/// of the line-status register; every other register reads its byte with
/// no side effect.
pub open spec fn spec_uart_read(m: UartModel, address: usize) -> (u8, UartModel) {
    if address == UART_RHR_THR {
        (
            m.regs[UART_RHR_THR as int],
            UartModel {
                regs: m.regs.update(
                    UART_LSR as int,
                    m.regs[UART_LSR as int] & !UART_LSR_RX,
                ),
                ..m
            },
        )
    } else {
        (m.regs[address as int], m)
    }
}

/// The device state after a write of `val` to register `address`: a write
/// to the transmit register appends the byte to the outgoing buffer; every
/// other register stores the byte.
pub open spec fn spec_uart_write(m: UartModel, address: usize, val: u8) -> UartModel {
    if address == UART_RHR_THR {
        UartModel { out_data: m.out_data.push(val), ..m }
    } else {
        UartModel { regs: m.regs.update(address as int, val), ..m }
    }
}

/// The device.
pub struct Uart16550 {
    regs: Vec<u8>,
    interrupt: bool,
    out_data: Vec<u8>,
}

impl View for Uart16550 {
    type V = UartModel;

    closed spec fn view(&self) -> UartModel {
        UartModel { regs: self.regs@, interrupt: self.interrupt, out_data: self.out_data@ }
    }
}

impl Uart16550 {
    /// Well-formedness of the device.
    pub open spec fn wf(&self) -> bool {
        uart_wf(self@)
    }

    /// A device at reset: transmit holding register empty, nothing
    /// received, nothing written out.
    pub fn new() -> (r: Self)
        ensures
            r.wf(),
            r@.regs =~= seq![0u8, 0, 0, 0, 0, UART_LSR_TX, 0, 0],
            !r@.interrupt,
            r@.out_data =~= Seq::<u8>::empty(),
    {
        let mut regs: Vec<u8> = Vec::new();
        let mut i: usize = 0;
        while i < 8
            invariant
                i <= 8,
                regs@.len() == i as int,
                forall|j: int| 0 <= j < i as int ==> regs@[j] == 0,
            decreases 8 - i,
        {
            regs.push(0);
            i += 1;
        }
        regs.set(UART_LSR, UART_LSR_TX);

        Self { regs, interrupt: false, out_data: Vec::new() }
    }

    /// Consumes the pending-interrupt flag: yields whether an interrupt
    /// was pending and clears it.
    pub fn has_interrupt(&mut self) -> (r: bool)
        ensures
            r == old(self)@.interrupt,
            final(self)@ == (UartModel { interrupt: false, ..old(self)@ }),
    {
        let r = self.interrupt;
        self.interrupt = false;
        r
    }

    /// Reads a device register, with the receive-register side effect of
    /// `spec_uart_read`.
    pub fn read(&mut self, address: usize) -> (r: u8)
        requires
            old(self).wf(),
            address < 8,
        ensures
            final(self).wf(),
            r == spec_uart_read(old(self)@, address).0,
            final(self)@ == spec_uart_read(old(self)@, address).1,
    {
        match address {
            UART_RHR_THR => {
                let lsr = self.regs[UART_LSR];
                self.regs.set(UART_LSR, lsr & !UART_LSR_RX);
                self.regs[UART_RHR_THR]
            },
            _ => self.regs[address],
        }
    }

    /// Writes a device register, with the transmit-register effect of
    /// `spec_uart_write`.
    pub fn write(&mut self, address: usize, val: u8)
        requires
            old(self).wf(),
            address < 8,
        ensures
            final(self).wf(),
            final(self)@ == spec_uart_write(old(self)@, address, val),
    {
        match address {
            UART_RHR_THR => {
                self.out_data.push(val);
            },
            _ => self.regs.set(address, val),
        }
    }

    /// Offers one received byte to the device, as the console front end
    /// does. Accepted only while the data-ready bit is clear: the byte goes
    /// into the receive register, the data-ready bit and the interrupt flag
    /// are raised, and `true` is returned. With data still pending the
    /// device is unchanged and `false` is returned.
    pub fn push_input(&mut self, val: u8) -> (r: bool)
        requires
            old(self).wf(),
        ensures
            final(self).wf(),
            r == (old(self)@.regs[UART_LSR as int] & UART_LSR_RX == 0),
            r ==> final(self)@ == (UartModel {
                regs: old(self)@.regs.update(UART_RHR_THR as int, val).update(
                    UART_LSR as int,
                    old(self)@.regs[UART_LSR as int] | UART_LSR_RX,
                ),
                interrupt: true,
                ..old(self)@
            }),
            !r ==> final(self)@ == old(self)@,
    {
        let lsr = self.regs[UART_LSR];
        if lsr & UART_LSR_RX == 0 {
            self.regs.set(UART_RHR_THR, val);
            self.regs.set(UART_LSR, lsr | UART_LSR_RX);
            self.interrupt = true;
            true
        } else {
            false
        }
    }

    /// Hands over everything written to the transmit register so far and
    /// clears the outgoing buffer; the console front end prints it.
    pub fn take_output(&mut self) -> (r: Vec<u8>)
        ensures
            r@ == old(self)@.out_data,
            final(self)@ == (UartModel { out_data: Seq::<u8>::empty(), ..old(self)@ }),
    {
        let mut out: Vec<u8> = Vec::new();
        core::mem::swap(&mut out, &mut self.out_data);
        out
    }
}

} // verus!
