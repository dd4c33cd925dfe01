use std::collections::VecDeque;
use vstd::prelude::*;

verus! {

pub const UART_BASE: u32 = 0x1000_0000;

/// Transmit holding register (write side of offset 0).
pub const UART_THR: u32 = 0x1000_0000;

/// Receive buffer register (read side of offset 0).
pub const UART_RBR: u32 = 0x1000_0000;

/// Line status register.
pub const UART_LSR: u32 = 0x1000_0005;

pub const UART_END: u32 = 0x1000_0007;

/// Line status with the transmitter empty (THRE | TEMT) and no data ready.
pub const LSR_IDLE: u8 = 0x60;

/// Line status with the transmitter empty and a received byte ready (DR).
pub const LSR_DATA_READY: u8 = 0x61;

/// Whether `address` falls in the UART's register window.
pub open spec fn in_uart(address: u32) -> bool {
    UART_BASE <= address <= UART_END
}

pub fn match_addr(address: u32) -> (r: bool)
    ensures
        r == in_uart(address),
{
    address >= UART_BASE && address <= UART_END
}

/// What the guest can observe of the UART: the bytes received from the host
/// and not yet read, and the bytes transmitted and not yet handed to the host.
pub struct UartState {
    pub rx: Seq<u8>,
    pub tx: Seq<u8>,
}

/// The line status register for a receive queue.
pub open spec fn line_status(rx: Seq<u8>) -> u8 {
    if rx.len() > 0 {
        LSR_DATA_READY
    } else {
        LSR_IDLE
    }
}

/// A read of the register at `address`: RBR hands out the oldest received
/// byte (0 when none is pending), LSR reports the line status, and any other
/// address is no readable register.
pub open spec fn uart_read(u: UartState, address: u32) -> (UartState, Option<u8>) {
    if address == UART_RBR {
        if u.rx.len() > 0 {
            (UartState { rx: u.rx.drop_first(), tx: u.tx }, Some(u.rx[0]))
        } else {
            (u, Some(0u8))
        }
    } else if address == UART_LSR {
        (u, Some(line_status(u.rx)))
    } else {
        (u, None)
    }
}

/// A write of `data` to the register at `address`: THR transmits it, other
/// registers ignore writes.
pub open spec fn uart_write(u: UartState, address: u32, data: u8) -> UartState {
    if address == UART_THR {
        UartState { rx: u.rx, tx: u.tx.push(data) }
    } else {
        u
    }
}

/// A 16550-style UART reduced to the registers a booting kernel uses. The
/// host side feeds received bytes in with `receive` and collects transmitted
/// ones with `take_output`.
pub struct UART {
    pub fifo: VecDeque<u8>,
    pub out: Vec<u8>,
}

impl View for UART {
    type V = UartState;

    open spec fn view(&self) -> UartState {
        UartState { rx: self.fifo@, tx: self.out@ }
    }
}

impl UART {
    pub fn new() -> (r: UART)
        ensures
            r@.rx.len() == 0,
            r@.tx.len() == 0,
    {
        UART { fifo: VecDeque::new(), out: Vec::new() }
    }

    /// Drops every pending received and transmitted byte.
    pub fn reset(&mut self)
        ensures
            final(self)@.rx.len() == 0,
            final(self)@.tx.len() == 0,
    {
        self.fifo = VecDeque::new();
        self.out = Vec::new();
    }

    pub fn read(&mut self, address: u32) -> (r: Option<u8>)
        ensures
            (final(self)@, r) == uart_read(old(self)@, address),
    {
        if address == UART_RBR {
            match self.fifo.pop_front() {
                Some(b) => {
                    proof {
                        assert(self.fifo@ =~= old(self).fifo@.drop_first());
                    }
                    Some(b)
                },
                None => Some(0),
            }
        } else if address == UART_LSR {
            if self.fifo.len() > 0 {
                Some(LSR_DATA_READY)
            } else {
                Some(LSR_IDLE)
            }
        } else {
            None
        }
    }

    pub fn write(&mut self, address: u32, data: u8)
        ensures
            final(self)@ == uart_write(old(self)@, address, data),
    {
        if address == UART_THR {
            self.out.push(data);
        }
    }

    /// A byte arrives from the host keyboard.
    pub fn receive(&mut self, byte: u8)
        ensures
            final(self)@.rx == old(self)@.rx.push(byte),
            final(self)@.tx == old(self)@.tx,
    {
        self.fifo.push_back(byte);
    }

    /// Hands the transmitted bytes to the host, oldest first.
    pub fn take_output(&mut self) -> (r: Vec<u8>)
        ensures
            r@ == old(self)@.tx,
            final(self)@.tx.len() == 0,
            final(self)@.rx == old(self)@.rx,
    {
        let mut r: Vec<u8> = Vec::new();
        std::mem::swap(&mut r, &mut self.out);
        r
    }
}

} // verus!
