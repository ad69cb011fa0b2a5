//! LPC-attached UART.
//!
//! Bridges a [`Uart`] to I/O ports and an interrupt pin, providing the
//! standard PC serial port interface. Every register access syncs the
//! interrupt pin, so the IRQ line always matches the logical state.
//!
//! Use [`LpcUart::input_byte`] to feed data from an external source
//! (e.g., a terminal emulator) into the guest's RX FIFO, and
//! [`LpcUart::output_byte`] to drain data the guest has transmitted.

use vstd::prelude::*;

use super::uart16550::{Uart, UartView};
use crate::access::{answer_byte, single, write_value8, written8, RWOp};

verus! {

/// Number of I/O ports occupied by a 16550 UART (offsets 0-7).
pub const REGISTER_LEN: u16 = 8;

/// Standard I/O base address for COM1.
pub const COM1_BASE: u16 = 0x3F8;

/// Standard IRQ for COM1.
pub const COM1_IRQ: u8 = 4;

/// Standard I/O base address for COM2.
pub const COM2_BASE: u16 = 0x2F8;

/// Standard IRQ for COM2.
pub const COM2_IRQ: u8 = 3;

/// An LPC-attached 16550 UART.
pub struct LpcUart {
    uart: Uart,
    /// The level of the interrupt pin.
    irq: bool,
    /// Whether every port access drains the TX FIFO.
    has_tx_sink: bool,
    /// What was drained and has not been taken.
    sunk: Vec<u8>,
}

/// The port as its owner sees it.
pub ghost struct Lpc {
    pub uart: UartView,
    pub irq: bool,
    pub has_tx_sink: bool,
    pub sunk: Seq<u8>,
}

impl View for LpcUart {
    type V = Lpc;

    closed spec fn view(&self) -> Lpc {
        Lpc {
            uart: self.uart@,
            irq: self.irq,
            has_tx_sink: self.has_tx_sink,
            sunk: self.sunk@,
        }
    }
}

impl Lpc {
    /// With `uart` in place, and the pin following it.
    pub open spec fn synced(self, uart: UartView) -> Lpc {
        Lpc { uart, irq: uart.pin, ..self }
    }

    /// All the guest transmitted, moved to the sink. The FIFO ends up empty,
    /// which the UART reports as a THRE interrupt.
    pub open spec fn flushed(self) -> Lpc {
        if self.uart.tx.len() == 0 {
            self
        } else {
            Lpc {
                uart: UartView { tx: Seq::empty(), ..self.uart }.with_thre(true),
                sunk: self.sunk + self.uart.tx,
                ..self
            }
        }
    }

    /// What follows every port access that left the UART at `uart`.
    pub open spec fn accessed(self, uart: UartView) -> Lpc {
        let l = Lpc { uart, ..self };
        let f = if self.has_tx_sink {
            l.flushed()
        } else {
            l
        };
        f.synced(f.uart)
    }
}

impl LpcUart {
    pub closed spec fn uart_wf(&self) -> bool {
        self.uart.wf()
    }

    /// The UART is well-formed, and the pin follows it.
    pub open spec fn wf(&self) -> bool {
        self.uart_wf() && self@.uart.wf() && self@.irq == self@.uart.pin
    }

    /// Create a new LPC UART whose pin is down.
    pub fn new() -> (r: Self)
        ensures
            r.wf(),
            r@ == (Lpc {
                uart: UartView::fresh(),
                irq: false,
                has_tx_sink: false,
                sunk: Seq::empty(),
            }),
    {
        let r = LpcUart { uart: Uart::new(), irq: false, has_tx_sink: false, sunk: Vec::new() };
        assert(r.sunk@ =~= Seq::<u8>::empty());
        r
    }

    /// Drain the TX FIFO on every port access from now on. Each byte is then
    /// out in the same access as the guest's THR write.
    pub fn set_tx_sink(&mut self)
        requires
            old(self).wf(),
        ensures
            final(self).wf(),
            final(self)@ == (Lpc { has_tx_sink: true, ..old(self)@ }),
    {
        self.has_tx_sink = true;
    }

    /// Hand over what was drained, oldest first, and forget it.
    pub fn take_sunk(&mut self) -> (r: Vec<u8>)
        requires
            old(self).wf(),
        ensures
            final(self).wf(),
            r@ == old(self)@.sunk,
            final(self)@ == (Lpc { sunk: Seq::empty(), ..old(self)@ }),
    {
        let mut taken: Vec<u8> = Vec::new();
        taken.append(&mut self.sunk);
        assert(taken@ =~= old(self)@.sunk);
        assert(self@.sunk =~= Seq::<u8>::empty());
        taken
    }

    /// Whether the interrupt pin is up.
    pub fn irq_asserted(&self) -> (r: bool)
        ensures
            r == self@.irq,
    {
        self.irq
    }

    /// Feed a byte from an external source into the guest's RX path.
    ///
    /// Returns `true` if the byte was accepted, `false` if the RX FIFO
    /// was full (byte dropped).
    pub fn input_byte(&mut self, data: u8) -> (accepted: bool)
        requires
            old(self).wf(),
        ensures
            final(self).wf(),
            accepted == old(self)@.uart.fed(data).0,
            final(self)@ == old(self)@.synced(old(self)@.uart.fed(data).1),
    {
        let accepted = self.uart.data_write(data);
        self.sync_intr_pin();
        accepted
    }

    /// Drain a byte from the guest's TX path.
    ///
    /// Returns `None` when there is no pending output.
    pub fn output_byte(&mut self) -> (r: Option<u8>)
        requires
            old(self).wf(),
        ensures
            final(self).wf(),
            r == old(self)@.uart.drained().0,
            final(self)@ == old(self)@.synced(old(self)@.uart.drained().1),
    {
        let byte = self.uart.data_read();
        self.sync_intr_pin();
        byte
    }

    /// Reset the UART to its power-on state.
    pub fn reset(&mut self)
        requires
            old(self).wf(),
        ensures
            final(self).wf(),
            final(self)@ == old(self)@.synced(UartView::fresh()),
    {
        self.uart.reset();
        self.sync_intr_pin();
    }

    fn sync_intr_pin(&mut self)
        ensures
            final(self)@ == old(self)@.synced(old(self)@.uart),
            final(self).uart_wf() == old(self).uart_wf(),
    {
        self.irq = self.uart.intr_state();
    }

    /// Handle a port read or write. A read returns the bytes it sees, a write
    /// nothing.
    pub fn pio_rw(&mut self, offset: u16, rwo: RWOp<'_>) -> (r: Vec<u8>)
        requires
            old(self).wf(),
        ensures
            final(self).wf(),
            match rwo {
                RWOp::Read(len) => {
                    let (val, after) = old(self)@.uart.reg_read((offset % 8) as u8);
                    r@ == single(val, len as nat) && final(self)@ == old(self)@.accessed(after)
                },
                RWOp::Write(bytes) => r@.len() == 0 && final(self)@ == old(self)@.accessed(
                    old(self)@.uart.reg_write((offset % 8) as u8, written8(bytes@)),
                ),
            },
    {
        let reg_offset: u8 = (offset % 8) as u8;
        let r = match rwo {
            RWOp::Read(len) => answer_byte(self.uart.reg_read(reg_offset), len),
            RWOp::Write(bytes) => {
                self.uart.reg_write(reg_offset, write_value8(bytes));
                Vec::new()
            },
        };
        // Drain TX into the sink in this access, so serial output has no
        // buffer delay.
        if self.has_tx_sink {
            self.flush_tx();
        }
        self.sync_intr_pin();
        r
    }

    fn flush_tx(&mut self)
        requires
            old(self).uart_wf(),
        ensures
            final(self).uart_wf(),
            final(self)@ == old(self)@.flushed(),
    {
        let ghost start = self@;
        proof {
            assert(start.sunk =~= start.sunk + start.uart.tx.take(0));
            assert(start.uart.tx.skip(0) =~= start.uart.tx);
        }
        let mut more = true;
        let ghost mut n: int = 0;
        while more
            invariant
                self.uart_wf(),
                0 <= n <= start.uart.tx.len(),
                self@.sunk == start.sunk + start.uart.tx.take(n),
                self@.irq == start.irq,
                self@.has_tx_sink == start.has_tx_sink,
                n == 0 ==> self@.uart == start.uart,
                n > 0 ==> self@.uart == (UartView {
                    tx: start.uart.tx.skip(n),
                    ..start.uart
                }).with_thre(n == start.uart.tx.len()),
                !more ==> n == start.uart.tx.len(),
            decreases start.uart.tx.len() - n + (if more {
                1int
            } else {
                0
            }),
        {
            match self.uart.data_read() {
                Some(b) => {
                    self.sunk.push(b);
                    proof {
                        n = n + 1;
                        assert(start.uart.tx.skip(n - 1).skip(1) =~= start.uart.tx.skip(n));
                        assert(start.sunk + start.uart.tx.take(n) =~= (start.sunk
                            + start.uart.tx.take(n - 1)).push(start.uart.tx[n - 1]));
                    }
                },
                None => {
                    more = false;
                },
            }
        }
        proof {
            assert(start.uart.tx.take(n) =~= start.uart.tx);
            assert(start.uart.tx.skip(n) =~= Seq::<u8>::empty());
            if n == 0 {
                assert(self@.sunk =~= start.sunk);
            }
        }
    }
}

/// With a sink, a byte the guest transmits is out in the same access, behind
/// everything it transmitted before.
pub proof fn sink_gets_every_byte(l: Lpc, data: u8)
    requires
        l.has_tx_sink,
        l.uart.tx.len() == 0,
        !l.uart.loopback,
        !l.uart.dlab(),
    ensures
        l.accessed(l.uart.reg_write(0, data)).sunk == l.sunk.push(data),
        l.accessed(l.uart.reg_write(0, data)).uart.tx.len() == 0,
{
    assert(l.sunk + l.uart.reg_write(0, data).tx =~= l.sunk.push(data));
}

/// The interrupt line follows the UART after every access. A port without a
/// sink keeps what the guest sent, and one with a sink hands all of it on in
/// order, behind what it handed on before, and shows the transmitter empty.
pub proof fn accesses_settle(l: Lpc, uart: UartView)
    requires
        uart.wf(),
    ensures
        ({
            let after = l.accessed(uart);
            &&& after.irq == after.uart.pin
            &&& after.has_tx_sink == l.has_tx_sink
            &&& !l.has_tx_sink ==> after.uart == uart && after.sunk == l.sunk
            &&& l.has_tx_sink ==> {
                &&& after.uart.tx.len() == 0
                &&& after.sunk == l.sunk + uart.tx
                &&& after.uart.rx == uart.rx
                &&& after.uart.reg_read(5).0 / 0x20 % 4 == 3
            }
            &&& l.synced(uart).irq == uart.pin
            &&& l.synced(uart).sunk == l.sunk
        }),
{
    assert(l.sunk + Seq::<u8>::empty() =~= l.sunk);
    if uart.tx.len() == 0 {
        assert(uart.tx =~= Seq::<u8>::empty());
    }
}

} // verus!
