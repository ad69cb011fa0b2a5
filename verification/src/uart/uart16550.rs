//! 16550 UART register emulation.
//!
//! Implements the full register set of a National Semiconductor 16550
//! UART: RBR/THR, IER, IIR/FCR, LCR, MCR, LSR, MSR, SCR, and the
//! divisor latch registers (DLL/DLH) accessed via the DLAB bit in LCR.
//!
//! ## Data paths
//!
//! **Guest to host (TX):** The guest writes a byte to the Transmitter
//! Holding Register (THR at offset 0, DLAB=0), which queues it in
//! `tx_fifo`. An external consumer drains it with [`Uart::data_read`].
//!
//! **Host to guest (RX):** An external producer puts a byte in
//! `rx_fifo` with [`Uart::data_write`]. The guest reads it from the
//! Receiver Buffer Register (RBR at offset 0, DLAB=0). The Data Ready
//! interrupt clears when the FIFO is empty.
//!
//! ## Interrupt priority (highest to lowest)
//!
//! 1. Receiver Line Status (RLS) -- overrun error
//! 2. Data Ready (DR)
//! 3. Transmitter Holding Register Empty (THRE)
//! 4. Modem Status (MDM)
//!
//! Reading the IIR while THRE is the active interrupt clears the THRE
//! interrupt (but leaves the THRE/TEMT bits in LSR asserted).

use std::collections::VecDeque;

use vstd::prelude::*;
use vstd::std_specs::vecdeque::*;

verus! {

/// Bytes that each FIFO holds.
///
/// A real 16550A has 16-byte FIFOs. These hold a full metadata frame in each
/// direction, so no byte drops between the guest serial driver and the agent
/// that polls it.
pub const FIFO_CAPACITY: usize = 256;

// ---- FIFO ------------------------------------------------------------------

/// A bounded queue of bytes.
pub struct Fifo {
    capacity: usize,
    buf: VecDeque<u8>,
}

impl View for Fifo {
    type V = Seq<u8>;

    closed spec fn view(&self) -> Seq<u8> {
        self.buf@
    }
}

impl Fifo {
    pub closed spec fn spec_capacity(&self) -> nat {
        self.capacity as nat
    }

    pub fn new(capacity: usize) -> (r: Self)
        ensures
            r@ == Seq::<u8>::empty(),
            r.spec_capacity() == capacity,
    {
        let r = Fifo { capacity, buf: VecDeque::new() };
        assert(r@ =~= Seq::<u8>::empty());
        r
    }

    /// Push a byte. Returns `true` if accepted, `false` if full.
    pub fn write(&mut self, data: u8) -> (accepted: bool)
        ensures
            accepted == (old(self)@.len() < old(self).spec_capacity()),
            final(self)@ == if accepted {
                old(self)@.push(data)
            } else {
                old(self)@
            },
            final(self).spec_capacity() == old(self).spec_capacity(),
    {
        if self.buf.len() < self.capacity {
            self.buf.push_back(data);
            true
        } else {
            false
        }
    }

    /// Pop the oldest byte, or `None` if empty.
    pub fn read(&mut self) -> (r: Option<u8>)
        ensures
            old(self)@.len() == 0 ==> r is None && final(self)@ == old(self)@,
            old(self)@.len() > 0 ==> r == Some(old(self)@[0]) && final(self)@ == old(self)@.skip(1),
            final(self).spec_capacity() == old(self).spec_capacity(),
    {
        let r = self.buf.pop_front();
        proof {
            if old(self)@.len() > 0 {
                assert(self@ =~= old(self)@.skip(1));
            } else {
                assert(self@ =~= old(self)@);
            }
        }
        r
    }

    pub fn reset(&mut self)
        ensures
            final(self)@ == Seq::<u8>::empty(),
            final(self).spec_capacity() == old(self).spec_capacity(),
    {
        self.buf.clear();
        assert(self@ =~= Seq::<u8>::empty());
    }

    pub fn is_empty(&self) -> (r: bool)
        ensures
            r == (self@.len() == 0),
    {
        self.buf.len() == 0
    }
}

// ---- Interrupt identification ----------------------------------------------

/// Interrupt source identity.
#[derive(Debug, Clone, Copy, PartialEq, Eq, Structural)]
pub enum IntrIdent {
    /// Modem Status -- priority 4 (lowest).
    Mdm,
    /// Transmitter Holding Register Empty -- priority 3.
    Thre,
    /// Data Ready -- priority 2.
    DR,
    /// Receiver Line Status -- priority 1 (highest).
    Rls,
}

/// The IIR with the given source pending, or none.
pub open spec fn iir_bits(source: Option<IntrIdent>) -> u8 {
    match source {
        Some(IntrIdent::Mdm) => 0,
        Some(IntrIdent::Thre) => 2,
        Some(IntrIdent::DR) => 4,
        Some(IntrIdent::Rls) => 6,
        None => 1,
    }
}

// ---- Register decode -------------------------------------------------------

/// A register, as an access reaches it.
#[derive(Debug, Clone, Copy, PartialEq, Eq, Structural)]
pub enum Reg {
    RecvHold,
    TransmitHold,
    IntrEnable,
    IntrIdent,
    FifoCtrl,
    LineCtrl,
    ModemCtrl,
    LineStatus,
    ModemStatus,
    Scratch,
    DivisorLow,
    DivisorHigh,
}

/// The register that a read at `offset` reaches.
pub open spec fn read_reg(offset: u8, dlab: bool) -> Option<Reg> {
    match offset {
        0 => Some(
            if dlab {
                Reg::DivisorLow
            } else {
                Reg::RecvHold
            },
        ),
        1 => Some(
            if dlab {
                Reg::DivisorHigh
            } else {
                Reg::IntrEnable
            },
        ),
        2 => Some(Reg::IntrIdent),
        3 => Some(Reg::LineCtrl),
        4 => Some(Reg::ModemCtrl),
        5 => Some(Reg::LineStatus),
        6 => Some(Reg::ModemStatus),
        7 => Some(Reg::Scratch),
        _ => None,
    }
}

/// The register that a write at `offset` reaches. LSR and MSR are read-only.
pub open spec fn write_reg(offset: u8, dlab: bool) -> Option<Reg> {
    match offset {
        0 => Some(
            if dlab {
                Reg::DivisorLow
            } else {
                Reg::TransmitHold
            },
        ),
        1 => Some(
            if dlab {
                Reg::DivisorHigh
            } else {
                Reg::IntrEnable
            },
        ),
        2 => Some(Reg::FifoCtrl),
        3 => Some(Reg::LineCtrl),
        4 => Some(Reg::ModemCtrl),
        7 => Some(Reg::Scratch),
        _ => None,
    }
}

/// Map an offset + DLAB state to the register for a **read** operation.
pub fn reg_for_read(offset: u8, dlab: bool) -> (r: Option<Reg>)
    ensures
        r == read_reg(offset, dlab),
{
    match offset {
        0 => if dlab {
            Some(Reg::DivisorLow)
        } else {
            Some(Reg::RecvHold)
        },
        1 => if dlab {
            Some(Reg::DivisorHigh)
        } else {
            Some(Reg::IntrEnable)
        },
        2 => Some(Reg::IntrIdent),
        3 => Some(Reg::LineCtrl),
        4 => Some(Reg::ModemCtrl),
        5 => Some(Reg::LineStatus),
        6 => Some(Reg::ModemStatus),
        7 => Some(Reg::Scratch),
        _ => None,
    }
}

/// Map an offset + DLAB state to the register for a **write** operation.
pub fn reg_for_write(offset: u8, dlab: bool) -> (r: Option<Reg>)
    ensures
        r == write_reg(offset, dlab),
{
    match offset {
        0 => if dlab {
            Some(Reg::DivisorLow)
        } else {
            Some(Reg::TransmitHold)
        },
        1 => if dlab {
            Some(Reg::DivisorHigh)
        } else {
            Some(Reg::IntrEnable)
        },
        2 => Some(Reg::FifoCtrl),
        3 => Some(Reg::LineCtrl),
        4 => Some(Reg::ModemCtrl),
        7 => Some(Reg::Scratch),
        _ => None,
    }
}

// ---- The UART --------------------------------------------------------------

/// 16550 UART register state machine.
pub struct Uart {
    /// IER: bit 0 received data, bit 1 THR empty, bit 2 line status, bit 3
    /// modem status.
    reg_intr_enable: u8,
    reg_intr_ident: Option<IntrIdent>,
    /// LCR: bit 7 is DLAB. The others have no effect.
    reg_line_ctrl: u8,
    /// LSR: data ready, overrun error, and THRE together with TEMT.
    line_dr: bool,
    line_oe: bool,
    line_thre: bool,
    /// MCR: loopback mode is all there is of it.
    modem_loop: bool,
    reg_modem_status: u8,
    reg_scratch: u8,
    reg_div_low: u8,
    reg_div_high: u8,
    /// Separate tracking for the THRE interrupt because reading IIR
    /// clears it while LSR THRE/TEMT bits remain asserted.
    thre_intr: bool,
    /// Synthesized interrupt pin state, read by the LPC wrapper to
    /// drive the actual pin.
    intr_pin: bool,
    rx_fifo: Fifo,
    tx_fifo: Fifo,
}

/// The UART as the guest and the host see it.
pub ghost struct UartView {
    pub ier: u8,
    /// The source that IIR names.
    pub iir: Option<IntrIdent>,
    pub lcr: u8,
    pub dr: bool,
    pub oe: bool,
    pub thre: bool,
    pub loopback: bool,
    pub msr: u8,
    pub scratch: u8,
    pub div_low: u8,
    pub div_high: u8,
    pub thre_intr: bool,
    pub pin: bool,
    /// Bytes for the guest, oldest first.
    pub rx: Seq<u8>,
    /// Bytes from the guest, oldest first.
    pub tx: Seq<u8>,
}

impl View for Uart {
    type V = UartView;

    closed spec fn view(&self) -> UartView {
        UartView {
            ier: self.reg_intr_enable,
            iir: self.reg_intr_ident,
            lcr: self.reg_line_ctrl,
            dr: self.line_dr,
            oe: self.line_oe,
            thre: self.line_thre,
            loopback: self.modem_loop,
            msr: self.reg_modem_status,
            scratch: self.reg_scratch,
            div_low: self.reg_div_low,
            div_high: self.reg_div_high,
            thre_intr: self.thre_intr,
            pin: self.intr_pin,
            rx: self.rx_fifo@,
            tx: self.tx_fifo@,
        }
    }
}

impl UartView {
    /// The UART after power-on.
    pub open spec fn fresh() -> UartView {
        UartView {
            ier: 0,
            iir: None,
            lcr: 0,
            dr: false,
            oe: false,
            thre: true,
            loopback: false,
            msr: 0,
            scratch: 0,
            div_low: 0,
            div_high: 0,
            thre_intr: false,
            pin: false,
            rx: Seq::empty(),
            tx: Seq::empty(),
        }
    }

    pub open spec fn dlab(self) -> bool {
        self.lcr >= 0x80
    }

    /// The highest-priority pending interrupt.
    pub open spec fn next_intr(self) -> Option<IntrIdent> {
        if self.ier / 4 % 2 == 1 && self.oe {
            Some(IntrIdent::Rls)
        } else if self.ier % 2 == 1 && self.dr {
            Some(IntrIdent::DR)
        } else if self.ier / 2 % 2 == 1 && self.thre_intr {
            Some(IntrIdent::Thre)
        } else if self.ier / 8 % 2 == 1 && self.msr != 0 {
            Some(IntrIdent::Mdm)
        } else {
            None
        }
    }

    /// What every access keeps: IIR names the highest-priority pending
    /// interrupt, the pin is up exactly while one is pending, Data Ready
    /// follows the receive FIFO, and neither FIFO passes its capacity. The
    /// transmitter reads empty whenever its FIFO is, and a THRE interrupt is
    /// pending only while it does. The modem has no status to report.
    pub open spec fn wf(self) -> bool {
        &&& self.iir == self.next_intr()
        &&& self.pin == (self.next_intr() is Some)
        &&& self.dr == (self.rx.len() > 0)
        &&& self.rx.len() <= FIFO_CAPACITY
        &&& self.tx.len() <= FIFO_CAPACITY
        &&& self.ier < 16
        &&& self.tx.len() == 0 ==> self.thre
        &&& self.thre_intr ==> self.thre
        &&& self.msr == 0
    }

    pub open spec fn lsr(self) -> u8 {
        ((if self.dr {
            1int
        } else {
            0
        }) + (if self.oe {
            2int
        } else {
            0
        }) + (if self.thre {
            0x60int
        } else {
            0
        })) as u8
    }

    /// IIR and the pin brought up to date.
    pub open spec fn updated(self) -> UartView {
        UartView { iir: self.next_intr(), pin: self.next_intr() is Some, ..self }
    }

    pub open spec fn with_thre(self, on: bool) -> UartView {
        UartView { thre: on, thre_intr: on, ..self }.updated()
    }

    pub open spec fn with_rx(self, rx: Seq<u8>) -> UartView {
        UartView { rx, dr: rx.len() > 0, ..self }
    }

    /// A read at `offset`: what the guest gets, and what is left.
    pub open spec fn reg_read(self, offset: u8) -> (u8, UartView) {
        match read_reg(offset, self.dlab()) {
            Some(Reg::DivisorLow) => (self.div_low, self),
            Some(Reg::DivisorHigh) => (self.div_high, self),
            Some(Reg::RecvHold) => if self.rx.len() > 0 {
                (self.rx[0], self.with_rx(self.rx.skip(1)).updated())
            } else {
                (0, self)
            },
            Some(Reg::IntrEnable) => (self.ier, self),
            Some(Reg::IntrIdent) => if self.iir == Some(IntrIdent::Thre) {
                // Reading the IIR clears the THRE interrupt source.
                (iir_bits(self.iir), UartView { thre_intr: false, ..self }.updated())
            } else {
                (iir_bits(self.iir), self)
            },
            Some(Reg::LineCtrl) => (self.lcr, self),
            Some(Reg::ModemCtrl) => (
                if self.loopback {
                    0x10
                } else {
                    0
                },
                self,
            ),
            // The overrun error is cleared by reading it.
            Some(Reg::LineStatus) => (self.lsr(), UartView { oe: false, ..self }.updated()),
            Some(Reg::ModemStatus) => (self.msr, self),
            Some(Reg::Scratch) => (self.scratch, self),
            _ => (0, self),
        }
    }

    /// A byte the guest transmits. It is lost where it finds no room: on the
    /// line silently, in loopback with an overrun error.
    pub open spec fn transmitted(self, data: u8) -> UartView {
        if !self.loopback {
            UartView {
                tx: if self.tx.len() < FIFO_CAPACITY {
                    self.tx.push(data)
                } else {
                    self.tx
                },
                ..self
            }.with_thre(true)
        } else if self.rx.len() < FIFO_CAPACITY {
            self.with_rx(self.rx.push(data)).with_thre(true)
        } else {
            UartView { oe: true, ..self }.with_rx(self.rx).with_thre(true)
        }
    }

    /// A write at `offset`.
    pub open spec fn reg_write(self, offset: u8, data: u8) -> UartView {
        match write_reg(offset, self.dlab()) {
            Some(Reg::DivisorLow) => UartView { div_low: data, ..self },
            Some(Reg::DivisorHigh) => UartView { div_high: data, ..self },
            Some(Reg::TransmitHold) => self.transmitted(data),
            Some(Reg::IntrEnable) => {
                // Some guests expect a THRE interrupt when it is enabled with
                // the transmit FIFO already empty.
                let turned_on = self.ier / 2 % 2 == 0 && data / 2 % 2 == 1;
                UartView {
                    ier: (data % 16) as u8,
                    thre_intr: self.thre_intr || (turned_on && self.tx.len() == 0),
                    ..self
                }.updated()
            },
            Some(Reg::LineCtrl) => UartView { lcr: data, ..self },
            Some(Reg::ModemCtrl) => UartView { loopback: data / 16 % 2 == 1, ..self },
            Some(Reg::Scratch) => UartView { scratch: data, ..self },
            _ => self,
        }
    }

    /// The host takes a byte the guest transmitted.
    pub open spec fn drained(self) -> (Option<u8>, UartView) {
        if self.tx.len() == 0 {
            (None, self)
        } else {
            let tx = self.tx.skip(1);
            (Some(self.tx[0]), UartView { tx, ..self }.with_thre(tx.len() == 0))
        }
    }

    /// The host sends a byte to the guest: whether it was taken, and what is
    /// left. In loopback mode the serial input is disconnected and takes
    /// everything.
    pub open spec fn fed(self, data: u8) -> (bool, UartView) {
        if self.loopback {
            (true, self)
        } else if self.rx.len() < FIFO_CAPACITY {
            (true, self.with_rx(self.rx.push(data)).updated())
        } else {
            (false, self.with_rx(self.rx).updated())
        }
    }
}

impl Uart {
    /// Both FIFOs have the capacity of this UART.
    pub closed spec fn sized(&self) -> bool {
        self.rx_fifo.spec_capacity() == FIFO_CAPACITY && self.tx_fifo.spec_capacity()
            == FIFO_CAPACITY
    }

    pub open spec fn wf(&self) -> bool {
        self.sized() && self@.wf()
    }

    /// Create a new UART in its power-on reset state.
    pub fn new() -> (r: Self)
        ensures
            r.wf(),
            r@ == UartView::fresh(),
    {
        Uart {
            reg_intr_enable: 0,
            reg_intr_ident: None,
            reg_line_ctrl: 0,
            line_dr: false,
            line_oe: false,
            line_thre: true,
            modem_loop: false,
            reg_modem_status: 0,
            reg_scratch: 0,
            reg_div_low: 0,
            reg_div_high: 0,
            thre_intr: false,
            intr_pin: false,
            rx_fifo: Fifo::new(FIFO_CAPACITY),
            tx_fifo: Fifo::new(FIFO_CAPACITY),
        }
    }

    /// Read a UART register.
    ///
    /// An `offset` outside 0..=7 reads 0.
    pub fn reg_read(&mut self, offset: u8) -> (r: u8)
        requires
            old(self).wf(),
        ensures
            final(self).wf(),
            (r, final(self)@) == old(self)@.reg_read(offset),
    {
        let dlab = self.is_dlab();
        match reg_for_read(offset, dlab) {
            Some(Reg::DivisorLow) => self.reg_div_low,
            Some(Reg::DivisorHigh) => self.reg_div_high,
            Some(Reg::RecvHold) => match self.rx_fifo.read() {
                Some(d) => {
                    self.update_dr();
                    self.update_isr();
                    d
                },
                None => 0,
            },
            Some(Reg::IntrEnable) => self.reg_intr_enable,
            Some(Reg::IntrIdent) => {
                let val = self.reg_intr_ident;
                if val == Some(IntrIdent::Thre) {
                    // Reading the IIR clears the THRE interrupt source,
                    // but leaves the THRE/TEMT bits in LSR.
                    self.thre_intr = false;
                    self.update_isr();
                }
                ident_bits(val)
            },
            Some(Reg::LineCtrl) => self.reg_line_ctrl,
            Some(Reg::ModemCtrl) => if self.modem_loop {
                0x10
            } else {
                0
            },
            Some(Reg::LineStatus) => {
                let val: u8 = self.line_status();
                // OE is cleared on read of LSR.
                self.line_oe = false;
                self.update_isr();
                val
            },
            Some(Reg::ModemStatus) => self.reg_modem_status,
            Some(Reg::Scratch) => self.reg_scratch,
            // Write-only registers and unknown offsets read as 0.
            _ => 0,
        }
    }

    /// Write a UART register.
    ///
    /// A write to an `offset` outside 0..=7 has no effect.
    pub fn reg_write(&mut self, offset: u8, data: u8)
        requires
            old(self).wf(),
        ensures
            final(self).wf(),
            final(self)@ == old(self)@.reg_write(offset, data),
    {
        let dlab = self.is_dlab();
        match reg_for_write(offset, dlab) {
            Some(Reg::DivisorLow) => {
                self.reg_div_low = data;
            },
            Some(Reg::DivisorHigh) => {
                self.reg_div_high = data;
            },
            Some(Reg::TransmitHold) => {
                self.transmit(data);
            },
            Some(Reg::IntrEnable) => {
                let was: u8 = self.reg_intr_enable;
                self.reg_intr_enable = data % 16;
                // Some guests expect a THRE interrupt when ETBEI is
                // toggled on and the TX FIFO is already empty.
                if was / 2 % 2 == 0 && data / 2 % 2 == 1 && self.tx_fifo.is_empty() {
                    self.thre_intr = true;
                }
                self.update_isr();
            },
            // FIFO mode is not emulated, so the write has no effect.
            Some(Reg::FifoCtrl) => {},
            Some(Reg::LineCtrl) => {
                // Only the DLAB bit has an effect.
                self.reg_line_ctrl = data;
            },
            Some(Reg::ModemCtrl) => {
                self.modem_loop = data / 16 % 2 == 1;
            },
            Some(Reg::Scratch) => {
                self.reg_scratch = data;
            },
            // Read-only registers / unknown offsets: silently ignore.
            _ => {},
        }
    }

    fn transmit(&mut self, data: u8)
        requires
            old(self).wf(),
        ensures
            final(self).wf(),
            final(self)@ == old(self)@.transmitted(data),
    {
        if !self.modem_loop {
            self.tx_fifo.write(data);
            // Model instant TX completion. The byte is taken later, but the
            // guest sees TX ready at once and does not spin on LSR.
            self.set_thre(true);
        } else {
            // Loopback feeds TX into RX.
            if !self.rx_fifo.write(data) {
                self.line_oe = true;
            }
            self.update_dr();
            self.set_thre(true);
        }
    }

    /// Read data transmitted by the guest (drain `tx_fifo`).
    ///
    /// Returns `None` when the TX FIFO is empty.
    pub fn data_read(&mut self) -> (r: Option<u8>)
        requires
            old(self).wf(),
        ensures
            final(self).wf(),
            (r, final(self)@) == old(self)@.drained(),
    {
        match self.tx_fifo.read() {
            Some(d) => {
                let empty = self.tx_fifo.is_empty();
                self.set_thre(empty);
                Some(d)
            },
            None => None,
        }
    }

    /// Write data to be received by the guest (fill `rx_fifo`).
    ///
    /// Returns `true` if the byte was accepted, `false` if the FIFO
    /// was full (byte is dropped). In loopback mode the serial input
    /// is disconnected and all data is silently discarded.
    pub fn data_write(&mut self, data: u8) -> (accepted: bool)
        requires
            old(self).wf(),
        ensures
            final(self).wf(),
            (accepted, final(self)@) == old(self)@.fed(data),
    {
        if self.modem_loop {
            // Per the datasheet, the serial input pin is disconnected.
            return true;
        }
        let accepted = self.rx_fifo.write(data);
        self.update_dr();
        self.update_isr();
        accepted
    }

    /// Returns `true` when the UART has an interrupt pending.
    ///
    /// The LPC wrapper uses this to drive the physical pin.
    pub fn intr_state(&self) -> (r: bool)
        ensures
            r == self@.pin,
    {
        self.intr_pin
    }

    /// Reset all registers and FIFOs to power-on defaults.
    pub fn reset(&mut self)
        requires
            old(self).wf(),
        ensures
            final(self).wf(),
            final(self)@ == UartView::fresh(),
    {
        self.reg_intr_enable = 0;
        self.reg_intr_ident = None;
        self.reg_line_ctrl = 0;
        self.line_dr = false;
        self.line_oe = false;
        self.line_thre = true;
        self.modem_loop = false;
        self.reg_modem_status = 0;
        self.reg_scratch = 0;
        self.reg_div_low = 0;
        self.reg_div_high = 0;
        self.thre_intr = false;
        self.intr_pin = false;
        self.rx_fifo.reset();
        self.tx_fifo.reset();
    }

    fn is_dlab(&self) -> (r: bool)
        ensures
            r == self@.dlab(),
    {
        self.reg_line_ctrl >= 0x80
    }

    fn line_status(&self) -> (r: u8)
        ensures
            r == self@.lsr(),
    {
        let dr: u8 = if self.line_dr {
            1
        } else {
            0
        };
        let oe: u8 = if self.line_oe {
            2
        } else {
            0
        };
        let thre: u8 = if self.line_thre {
            0x60
        } else {
            0
        };
        dr + oe + thre
    }

    /// Determine the highest-priority pending interrupt.
    fn next_intr(&self) -> (r: Option<IntrIdent>)
        ensures
            r == self@.next_intr(),
    {
        let ier: u8 = self.reg_intr_enable;
        if ier / 4 % 2 == 1 && self.line_oe {
            Some(IntrIdent::Rls)
        } else if ier % 2 == 1 && self.line_dr {
            Some(IntrIdent::DR)
        } else if ier / 2 % 2 == 1 && self.thre_intr {
            Some(IntrIdent::Thre)
        } else if ier / 8 % 2 == 1 && self.reg_modem_status != 0 {
            Some(IntrIdent::Mdm)
        } else {
            None
        }
    }

    /// Recompute IIR and `intr_pin` from current state.
    fn update_isr(&mut self)
        ensures
            final(self)@ == old(self)@.updated(),
            final(self).sized() == old(self).sized(),
    {
        let new = self.next_intr();
        self.reg_intr_ident = new;
        self.intr_pin = new.is_some();
    }

    /// Set or clear THRE/TEMT in LSR and the separate `thre_intr` flag.
    fn set_thre(&mut self, state: bool)
        ensures
            final(self)@ == old(self)@.with_thre(state),
            final(self).sized() == old(self).sized(),
    {
        self.line_thre = state;
        self.thre_intr = state;
        self.update_isr();
    }

    /// Update Data Ready in LSR based on RX FIFO occupancy.
    fn update_dr(&mut self)
        ensures
            final(self)@ == old(self)@.with_rx(old(self)@.rx),
            final(self).sized() == old(self).sized(),
    {
        self.line_dr = !self.rx_fifo.is_empty();
    }
}

fn ident_bits(source: Option<IntrIdent>) -> (r: u8)
    ensures
        r == iir_bits(source),
{
    match source {
        Some(IntrIdent::Mdm) => 0,
        Some(IntrIdent::Thre) => 2,
        Some(IntrIdent::DR) => 4,
        Some(IntrIdent::Rls) => 6,
        None => 1,
    }
}

impl Default for Uart {
    fn default() -> (r: Self)
        ensures
            r.wf(),
            r@ == UartView::fresh(),
    {
        Self::new()
    }
}

// ---- Laws ------------------------------------------------------------------

/// Every access keeps the UART's invariant, so its pin is up exactly while an
/// enabled interrupt is pending.
pub proof fn invariant_kept(u: UartView, offset: u8, data: u8)
    requires
        u.wf(),
    ensures
        u.reg_read(offset).1.wf(),
        u.reg_write(offset, data).wf(),
        u.drained().1.wf(),
        u.fed(data).1.wf(),
        UartView::fresh().wf(),
{
}

/// The scratch register is read back, and so is each half of the divisor
/// latch while DLAB is set.
pub proof fn registers_read_back(u: UartView, data: u8)
    ensures
        u.reg_write(7, data).reg_read(7) == (data, u.reg_write(7, data)),
        u.reg_write(3, data).reg_read(3) == (data, u.reg_write(3, data)),
        u.dlab() ==> {
            &&& u.reg_write(0, data).reg_read(0) == (data, u.reg_write(0, data))
            &&& u.reg_write(1, data).reg_read(1) == (data, u.reg_write(1, data))
        },
{
}

/// Bytes reach the guest in the order the host sent them, and the host in the
/// order the guest transmitted them.
pub proof fn bytes_stay_in_order(u: UartView, data: u8)
    requires
        !u.loopback,
        !u.dlab(),
    ensures
        u.rx.len() < FIFO_CAPACITY ==> u.fed(data).1.rx == u.rx.push(data),
        u.rx.len() > 0 ==> u.reg_read(0).0 == u.rx[0] && u.reg_read(0).1.rx == u.rx.skip(1),
        u.tx.len() < FIFO_CAPACITY ==> u.reg_write(0, data).tx == u.tx.push(data),
        u.tx.len() > 0 ==> u.drained().0 == Some(u.tx[0]) && u.drained().1.tx == u.tx.skip(1),
{
}

/// Reading IIR while THRE is the active interrupt clears that interrupt and
/// leaves LSR as it was.
pub proof fn reading_iir_clears_thre(u: UartView)
    requires
        u.wf(),
        u.iir == Some(IntrIdent::Thre),
    ensures
        ({
            let (val, after) = u.reg_read(2);
            &&& val == 2
            &&& after.iir != Some(IntrIdent::Thre)
            &&& after.lsr() == u.lsr()
        }),
{
}

/// An access past the eight registers sees zero and changes nothing.
pub proof fn out_of_range_is_inert(u: UartView, offset: u8, data: u8)
    requires
        offset >= 8,
    ensures
        u.reg_read(offset) == (0u8, u),
        u.reg_write(offset, data) == u,
{
}

/// Bit 0 of the line status is set exactly while a received byte waits, bit 1
/// while an overrun has not been read, bits 5 and 6 while the transmitter is
/// empty, and the other four are clear. Reading it clears the overrun and
/// nothing else the guest can read.
pub proof fn line_status_tells_the_fifos(u: UartView)
    requires
        u.wf(),
    ensures
        ({
            let (val, after) = u.reg_read(5);
            &&& val % 2 == 1 <==> u.rx.len() > 0
            &&& val / 2 % 2 == 1 <==> u.oe
            &&& val / 4 % 8 == 0
            &&& val / 0x20 % 2 == 1 <==> u.thre
            &&& val / 0x40 % 2 == 1 <==> u.thre
            &&& val / 0x80 == 0
            &&& after.reg_read(5).0 / 2 % 2 == 0
            &&& after == (UartView { oe: false, iir: after.iir, pin: after.pin, ..u })
        }),
{
}

/// A byte that reaches a full receive FIFO in loopback mode is lost, and the
/// next read of the line status says so, once. The FIFO is full at 256 bytes.
pub proof fn overrun_is_reported_once(u: UartView, data: u8)
    requires
        u.wf(),
        !u.dlab(),
        u.loopback,
    ensures
        ({
            let after = u.reg_write(0, data);
            let (first, read) = after.reg_read(5);
            &&& u.rx.len() == 256 ==> after.rx == u.rx && first / 2 % 2 == 1
            &&& u.rx.len() < 256 ==> after.rx == u.rx.push(data) && first / 2 % 2 == if u.oe {
                1int
            } else {
                0
            }
            &&& read.reg_read(5).0 / 2 % 2 == 0
            &&& after.tx == u.tx
        }),
{
}

/// The line status follows the transmitter: it is empty after a write, which
/// is taken at once, and after the last byte was drained, and busy while
/// drained bytes leave others behind.
pub proof fn transmitter_is_reported(u: UartView, data: u8)
    requires
        u.wf(),
        !u.dlab(),
    ensures
        u.reg_write(0, data).reg_read(5).0 / 0x20 % 4 == 3,
        u.tx.len() == 1 ==> u.drained().1.reg_read(5).0 / 0x20 % 4 == 3,
        u.tx.len() > 1 ==> u.drained().1.reg_read(5).0 / 0x20 % 4 == 0,
        u.tx.len() == 0 ==> u.drained() == (None::<u8>, u),
        u.reg_write(0, data).thre_intr,
        u.tx.len() > 0 ==> u.drained().1.thre_intr == (u.tx.len() == 1),
{
}

/// What the identification register names: line status before received data
/// before an empty transmitter, each only where its enable bit is set, and 1
/// where there is nothing. The pin is up exactly while something is named.
pub proof fn interrupts_are_identified(u: UartView)
    requires
        u.wf(),
    ensures
        ({
            let val = u.reg_read(2).0;
            let status = u.ier / 4 % 2 == 1 && u.oe;
            let data = u.ier % 2 == 1 && u.rx.len() > 0;
            let empty = u.ier / 2 % 2 == 1 && u.thre_intr;
            &&& val == 6 <==> status
            &&& val == 4 <==> !status && data
            &&& val == 2 <==> !status && !data && empty
            &&& val == 1 <==> !status && !data && !empty
            &&& u.pin <==> status || data || empty
        }),
{
}

/// The enable register keeps its low four bits. Enabling the transmitter's
/// interrupt while nothing is queued raises it at once.
pub proof fn interrupt_enables_read_back(u: UartView, data: u8)
    requires
        u.wf(),
        !u.dlab(),
    ensures
        ({
            let after = u.reg_write(1, data);
            &&& after.reg_read(1) == ((data % 16) as u8, after)
            &&& u.ier / 2 % 2 == 0 && data / 2 % 2 == 1 && u.tx.len() == 0 ==> after.thre_intr
                && after.pin
            &&& !(u.ier / 2 % 2 == 0 && data / 2 % 2 == 1 && u.tx.len() == 0) ==> after.thre_intr
                == u.thre_intr
            &&& data % 16 == 0 ==> !after.pin
            &&& after.rx == u.rx
            &&& after.tx == u.tx
            &&& after.oe == u.oe
            &&& after.thre == u.thre
        }),
{
}

/// Bit 4 of the modem control register turns loopback on, and is all that
/// reads back. In loopback the guest's bytes come back to it in order and
/// none goes out, while bytes from outside are taken and dropped.
pub proof fn loopback_returns_bytes(u: UartView, control: u8, data: u8)
    requires
        u.wf(),
        !u.dlab(),
    ensures
        ({
            let w = u.reg_write(4, control);
            let on = control / 16 % 2 == 1;
            &&& w == (UartView { loopback: on, ..u })
            &&& w.reg_read(4).0 == if on {
                0x10int
            } else {
                0
            }
            &&& on && u.rx.len() < 256 ==> w.reg_write(0, data).rx == u.rx.push(data) && w.reg_write(
                0,
                data,
            ).tx == u.tx
            &&& !on && u.tx.len() < 256 ==> w.reg_write(0, data).tx == u.tx.push(data)
                && w.reg_write(0, data).rx == u.rx
            &&& on ==> w.fed(data) == (true, w)
        }),
{
}

/// A full FIFO of 256 bytes takes no more: a byte from outside is refused, and
/// one from the guest is dropped.
pub proof fn full_fifos_take_no_more(u: UartView, data: u8)
    requires
        u.wf(),
        !u.dlab(),
        !u.loopback,
    ensures
        u.fed(data).0 <==> u.rx.len() < 256,
        u.rx.len() == 256 ==> u.fed(data).1 == u,
        u.tx.len() == 256 ==> u.reg_write(0, data).tx == u.tx,
{
}

/// Bit 7 of the line control register alone decides what the first two
/// offsets reach: with it set the divisor, else the data and the enables.
pub proof fn divisor_latch_bit_selects(u: UartView, control: u8, data: u8)
    requires
        u.wf(),
    ensures
        ({
            let w = u.reg_write(3, control);
            &&& w == (UartView { lcr: control, ..u })
            &&& control / 0x80 == 1 ==> {
                &&& w.reg_write(0, data) == (UartView { div_low: data, ..w })
                &&& w.reg_write(1, data) == (UartView { div_high: data, ..w })
                &&& w.reg_read(0) == (w.div_low, w)
                &&& w.reg_read(1) == (w.div_high, w)
            }
            &&& control / 0x80 == 0 ==> {
                &&& w.reg_write(0, data).div_low == w.div_low
                &&& w.reg_write(1, data).div_high == w.div_high
                &&& w.reg_read(1) == (w.ier, w)
                &&& w.rx.len() == 0 ==> w.reg_read(0) == (0u8, w)
            }
        }),
{
}

/// The FIFO control register takes nothing, the line and modem status
/// registers cannot be written, the scratch register touches no other, and
/// no modem line ever changes.
pub proof fn other_registers_are_inert(u: UartView, data: u8)
    requires
        u.wf(),
    ensures
        u.reg_write(2, data) == u,
        u.reg_write(5, data) == u,
        u.reg_write(6, data) == u,
        u.reg_write(7, data) == (UartView { scratch: data, ..u }),
        u.reg_read(6) == (0u8, u),
        u.reg_read(4).1 == u,
        u.reg_read(2).0 != 2 ==> u.reg_read(2).1 == u,
{
}

/// What a guest finds at power-on: nothing received, the transmitter empty, no
/// interrupt and no loopback, and zeros in every other register.
pub proof fn power_on_is_idle()
    ensures
        ({
            let u = UartView::fresh();
            &&& u.reg_read(0) == (0u8, u)
            &&& u.reg_read(1) == (0u8, u)
            &&& u.reg_read(2) == (1u8, u)
            &&& u.reg_read(3) == (0u8, u)
            &&& u.reg_read(4) == (0u8, u)
            &&& u.reg_read(5).0 == 0x60
            &&& u.reg_read(6) == (0u8, u)
            &&& u.reg_read(7) == (0u8, u)
            &&& u.div_low == 0 && u.div_high == 0
            &&& u.rx.len() == 0 && u.tx.len() == 0
            &&& !u.pin && !u.thre_intr
        }),
{
}

} // verus!
