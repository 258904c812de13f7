//! The diagnostic serial port, abstractly.
//!
//! The UART is a byte-at-a-time, register-polling writer used only for
//! human-readable status messages; its failures are outside the kernel's
//! error taxonomy. This module keeps the device's identity — the base address
//! of its register block — as a plain value. The volatile register reads and
//! writes (poll the TX-FIFO status, store a byte into the data register) are
//! the board glue's concern.

use vstd::prelude::*;

verus! {

/// Byte offset of the transmit data register within the register block.
pub const UART_TXDATA: u32 = 0;

/// Byte offset of the TX-FIFO status register within the register block.
pub const UART_TXSTAT: u32 = 0x14;

/// Bit of the status register that means the TX FIFO is full.
pub const UART_TX_FULL: u32 = 0x80000000;

/// A memory-mapped UART, identified by the base address of its registers.
pub struct Uart {
    base_address: usize,
}

impl View for Uart {
    type V = usize;

    closed spec fn view(&self) -> usize {
        self.base_address
    }
}

impl Uart {
    /// A UART whose register block starts at `base`.
    pub fn new(base: usize) -> (u: Uart)
        ensures
            u@ == base,
    {
        Uart { base_address: base }
    }

    /// The base address of the register block.
    pub fn base(&self) -> (r: usize)
        ensures
            r == self@,
    {
        self.base_address
    }

    /// The address of the register at byte offset `offset`: where a register
    /// write at that offset must go.
    pub fn reg_address(&self, offset: u32) -> (r: usize)
        requires
            self@ + offset <= usize::MAX,
        ensures
            r == self@ + offset,
    {
        self.base_address + (offset as usize)
    }
}

} // verus!
