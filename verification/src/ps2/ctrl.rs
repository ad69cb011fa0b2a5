//! The PS/2 controller.
//!
//! I/O PORTS
//!
//! - Control port (0x64). Reads return the status register. Writes are
//!   controller commands (`PS2C_CMD_*`). Some commands take one more byte on
//!   the data port.
//! - Data port (0x60). Reads return a command response or device data.
//!   Writes are the argument byte of a pending controller command, or a
//!   keyboard command. To send a byte to the mouse, the guest first writes
//!   `PS2C_CMD_WRITE_AUX_IN` to the control port.
//!
//! REGISTERS
//!
//! The CPU sees three 8-bit registers: the input buffer (written through
//! either port), the output buffer (read through the data port) and the
//! status register. The input buffer has no state here because writes are
//! handled at once.
//!
//! INTERRUPTS
//!
//! The interrupts are edge-triggered. The controller pulses the pin when it
//! has output for the guest.
//!
//! KEYBOARD INPUT
//!
//! Key events come as the scan codes of a key, not through the input buffer.
//! The controller puts them in the keyboard output buffer and pulses the
//! keyboard interrupt.

use vstd::prelude::*;

use super::kbd::{Kbd, PS2Kbd};
use super::mouse::{Mouse, PS2Mouse};
use super::{queued_all, PORT_PS2_CMD_STATUS, PORT_PS2_DATA};
use crate::access::{answer_byte, single, write_value8, written8, RWOp};

verus! {

// ---- Controller Status Register --------------------------------------------

/// Output Buffer Status: set before the OS reads the data port.
pub const STATUS_OUT_FULL: u8 = 0x01;

/// System Flag: set if the system passes self tests.
pub const STATUS_SYS_FLAG: u8 = 0x04;

/// 1 if the last write to the input buffer was a command that waits for its
/// argument.
pub const STATUS_CMD_DATA: u8 = 0x08;

/// Keyboard not locked (1 = unlocked).
pub const STATUS_UNLOCKED: u8 = 0x10;

/// Auxiliary Output Buffer contains data.
pub const STATUS_AUX_FULL: u8 = 0x20;

// ---- Controller Configuration Byte -----------------------------------------

/// Primary Port Interrupt (1 = enabled, 0 = disabled).
pub const CFG_PRI_INTR_EN: u8 = 0x01;

/// Auxiliary Port Interrupt (1 = enabled, 0 = disabled).
pub const CFG_AUX_INTR_EN: u8 = 0x02;

/// System Flag (1 = system tests passed).
pub const CFG_SYS_FLAG: u8 = 0x04;

/// Primary Port Clock (1 = disabled, 0 = enabled).
pub const CFG_PRI_CLOCK_DIS: u8 = 0x10;

/// Auxiliary Port Clock (1 = disabled, 0 = enabled).
pub const CFG_AUX_CLOCK_DIS: u8 = 0x20;

/// Primary Port Translation (1 = enabled, 0 = disabled). If enabled, the
/// guest sees scan code set 1.
pub const CFG_PRI_XLATE_EN: u8 = 0x40;

/// The bits that the configuration byte has. Bits 3 and 7 must be 0.
pub const CFG_BITS: u8 = 0x77;

// ---- Controller Output Port ------------------------------------------------

/// Primary Port Output Buffer Full.
pub const OUT_PRI_FULL: u8 = 0x10;

/// Auxiliary Port Output Buffer Full.
pub const OUT_AUX_FULL: u8 = 0x20;

/// The output port bits that hold what was written. Bit 0 is the system
/// reset, which only a pulse command reaches, and the two full bits follow
/// the devices.
pub const OUT_BITS: u8 = 0xCE;

// ---- Controller Commands ---------------------------------------------------

// Read/write Controller Configuration Byte
pub const PS2C_CMD_READ_CTRL_CFG: u8 = 0x20;

pub const PS2C_CMD_WRITE_CTRL_CFG: u8 = 0x60;

// Read a byte of the controller's internal RAM
pub const PS2C_CMD_READ_RAM_START: u8 = 0x21;

pub const PS2C_CMD_READ_RAM_END: u8 = 0x3f;

// Write a byte of the controller's internal RAM
pub const PS2C_CMD_WRITE_RAM_START: u8 = 0x61;

pub const PS2C_CMD_WRITE_RAM_END: u8 = 0x7f;

// Disable/enable auxiliary port
pub const PS2C_CMD_AUX_PORT_DIS: u8 = 0xa7;

pub const PS2C_CMD_AUX_PORT_ENA: u8 = 0xa8;

// Test auxiliary port
pub const PS2C_CMD_AUX_PORT_TEST: u8 = 0xa9;

// Test controller (and response, if test passes)
pub const PS2C_CMD_CTRL_TEST: u8 = 0xaa;

pub const PS2C_R_CTRL_TEST_PASS: u8 = 0x55;

// Test primary port (and response, if test passes)
pub const PS2C_CMD_PRI_PORT_TEST: u8 = 0xab;

pub const PS2C_R_PORT_TEST_PASS: u8 = 0x00;

// Disable/enable primary port
pub const PS2C_CMD_PRI_PORT_DIS: u8 = 0xad;

pub const PS2C_CMD_PRI_PORT_ENA: u8 = 0xae;

// Read/write next byte to the Controller Output Port
pub const PS2C_CMD_READ_CTLR_OUT: u8 = 0xd0;

pub const PS2C_CMD_WRITE_CTLR_OUT: u8 = 0xd1;

// Write next byte to the primary port output
pub const PS2C_CMD_WRITE_PRI_OUT: u8 = 0xd2;

// Write next byte to the auxiliary port output
pub const PS2C_CMD_WRITE_AUX_OUT: u8 = 0xd3;

// Write next byte to the auxiliary port input
pub const PS2C_CMD_WRITE_AUX_IN: u8 = 0xd4;

/// Of the commands that pulse an output line low, the one that lowers the
/// system reset line.
pub const PS2C_CMD_PULSE_RESET: u8 = 0xfe;

/// Bytes of internal RAM.
pub const PS2C_RAM_LEN: usize = 31;

/// The bytes a key event is to the guest, in each scan code set.
#[derive(Debug)]
pub struct KeyEventRep {
    pub set1: Vec<u8>,
    pub set2: Vec<u8>,
}

/// What the controller does outside itself, in the order it does it.
#[derive(Debug, Clone, Copy, PartialEq, Eq, Structural)]
pub enum PS2Effect {
    /// Pulse the keyboard interrupt.
    PulsePrimary,
    /// Pulse the mouse interrupt.
    PulseAuxiliary,
    /// Reset the machine.
    RequestReset,
}

/// PS/2 controller with its keyboard and mouse.
pub struct PS2Ctrl {
    resp: Option<u8>,
    cmd_prefix: Option<u8>,
    ctrl_cfg: u8,
    ctrl_out_port: u8,
    ram: Vec<u8>,
    pri_port: PS2Kbd,
    aux_port: PS2Mouse,
    effects: Vec<PS2Effect>,
}

/// The controller as the guest and its owner see it.
pub ghost struct Ps2 {
    /// The answer to the last controller command, until it is read.
    pub resp: Option<u8>,
    /// The controller command whose argument has to come.
    pub cmd_prefix: Option<u8>,
    pub cfg: u8,
    pub out_port: u8,
    pub ram: Seq<u8>,
    pub kbd: Kbd,
    pub mouse: Mouse,
    pub effects: Seq<PS2Effect>,
}

impl View for PS2Ctrl {
    type V = Ps2;

    closed spec fn view(&self) -> Ps2 {
        Ps2 {
            resp: self.resp,
            cmd_prefix: self.cmd_prefix,
            cfg: self.ctrl_cfg,
            out_port: self.ctrl_out_port,
            ram: self.ram@,
            kbd: self.pri_port@,
            mouse: self.aux_port@,
            effects: self.effects@,
        }
    }
}

/// Whether a controller command takes an argument on the data port.
pub open spec fn takes_argument(cmd: u8) -> bool {
    cmd == PS2C_CMD_WRITE_CTRL_CFG || cmd == PS2C_CMD_WRITE_CTLR_OUT || PS2C_CMD_WRITE_PRI_OUT
        <= cmd <= PS2C_CMD_WRITE_AUX_IN || PS2C_CMD_WRITE_RAM_START <= cmd
        <= PS2C_CMD_WRITE_RAM_END
}

/// `v` with the bits of `mask` set or cleared.
pub open spec fn with_bits(v: u8, mask: u8, on: bool) -> u8 {
    if on {
        v | mask
    } else {
        v & !mask
    }
}

pub open spec fn bit_if(on: bool, bit: u8) -> int {
    if on {
        bit as int
    } else {
        0
    }
}

impl Ps2 {
    /// A controller after a reset.
    pub open spec fn fresh() -> Ps2 {
        Ps2 {
            resp: None,
            cmd_prefix: None,
            cfg: 0,
            out_port: 0,
            ram: Seq::new(PS2C_RAM_LEN as nat, |i: int| 0u8),
            kbd: Kbd::fresh(),
            mouse: Mouse::fresh(),
            effects: Seq::empty(),
        }
    }

    /// Both devices are well-formed, and only a command that takes an
    /// argument waits for one.
    pub open spec fn wf(self) -> bool {
        &&& self.kbd.wf()
        &&& self.mouse.wf()
        &&& self.ram.len() == PS2C_RAM_LEN
        &&& self.cmd_prefix matches Some(cmd) ==> takes_argument(cmd)
    }

    pub open spec fn act(self, e: PS2Effect) -> Ps2 {
        Ps2 { effects: self.effects.push(e), ..self }
    }

    /// Pulse each interrupt whose device has output and that is enabled. The
    /// keyboard's is gated on its clock too.
    pub open spec fn interrupts(self) -> Ps2 {
        let a = if self.cfg & CFG_PRI_INTR_EN != 0 && self.cfg & CFG_PRI_CLOCK_DIS == 0
            && self.kbd.buf.len() > 0 {
            self.act(PS2Effect::PulsePrimary)
        } else {
            self
        };
        if self.cfg & CFG_AUX_INTR_EN != 0 && self.mouse.buf.len() > 0 {
            a.act(PS2Effect::PulseAuxiliary)
        } else {
            a
        }
    }

    /// The argument `v` of the controller command `cmd`.
    pub open spec fn argument(self, cmd: u8, v: u8) -> Ps2 {
        let c = Ps2 { cmd_prefix: None, ..self };
        if cmd == PS2C_CMD_WRITE_CTRL_CFG {
            Ps2 { cfg: v & CFG_BITS, ..c }
        } else if PS2C_CMD_WRITE_RAM_START <= cmd <= PS2C_CMD_WRITE_RAM_END {
            Ps2 { ram: c.ram.update(cmd - PS2C_CMD_WRITE_RAM_START, v), ..c }
        } else if cmd == PS2C_CMD_WRITE_CTLR_OUT {
            Ps2 { out_port: v & OUT_BITS, ..c }
        } else if cmd == PS2C_CMD_WRITE_PRI_OUT {
            Ps2 { kbd: c.kbd.resp(v), ..c }
        } else if cmd == PS2C_CMD_WRITE_AUX_OUT {
            Ps2 { mouse: c.mouse.resp(v), ..c }
        } else {
            Ps2 { mouse: c.mouse.input(v), ..c }
        }
    }

    /// A write to the data port.
    pub open spec fn data_written(self, v: u8) -> Ps2 {
        match self.cmd_prefix {
            Some(cmd) => self.argument(cmd, v),
            None => Ps2 { kbd: self.kbd.input(v), ..self },
        }.interrupts()
    }

    /// A read of the data port: the controller's own answer first, then the
    /// keyboard's output, then the mouse's.
    pub open spec fn data_taken(self) -> (u8, Ps2) {
        if self.resp is Some {
            (self.resp->0, Ps2 { resp: None, ..self })
        } else if self.kbd.buf.len() > 0 {
            let kbd = Kbd { buf: self.kbd.buf.skip(1), ..self.kbd };
            (self.kbd.buf[0], Ps2 { kbd, ..self }.interrupts())
        } else if self.mouse.buf.len() > 0 {
            let mouse = Mouse { buf: self.mouse.buf.skip(1), ..self.mouse };
            (self.mouse.buf[0], Ps2 { mouse, ..self }.interrupts())
        } else {
            (0, self)
        }
    }

    pub open spec fn answer(self, v: u8) -> Ps2 {
        Ps2 { resp: Some(v), ..self }
    }

    /// The output port as a command reads it.
    pub open spec fn out_port_now(self) -> u8 {
        with_bits(
            with_bits(self.out_port, OUT_PRI_FULL, self.kbd.buf.len() > 0),
            OUT_AUX_FULL,
            self.mouse.buf.len() > 0,
        )
    }

    /// A write to the control port.
    pub open spec fn cmd_written(self, v: u8) -> Ps2 {
        if v == PS2C_CMD_READ_CTRL_CFG {
            self.answer(self.cfg)
        } else if PS2C_CMD_READ_RAM_START <= v <= PS2C_CMD_READ_RAM_END {
            self.answer(self.ram[v - PS2C_CMD_READ_RAM_START])
        } else if v == PS2C_CMD_CTRL_TEST {
            self.answer(PS2C_R_CTRL_TEST_PASS)
        } else if v == PS2C_CMD_PRI_PORT_TEST || v == PS2C_CMD_AUX_PORT_TEST {
            self.answer(PS2C_R_PORT_TEST_PASS)
        } else if v == PS2C_CMD_PRI_PORT_ENA || v == PS2C_CMD_PRI_PORT_DIS {
            Ps2 {
                cfg: with_bits(self.cfg, CFG_PRI_CLOCK_DIS, v == PS2C_CMD_PRI_PORT_DIS),
                ..self
            }
        } else if v == PS2C_CMD_AUX_PORT_ENA || v == PS2C_CMD_AUX_PORT_DIS {
            Ps2 {
                cfg: with_bits(self.cfg, CFG_AUX_CLOCK_DIS, v == PS2C_CMD_AUX_PORT_DIS),
                ..self
            }
        } else if v == PS2C_CMD_READ_CTLR_OUT {
            self.answer(self.out_port_now())
        } else if takes_argument(v) {
            Ps2 { cmd_prefix: Some(v), ..self }
        } else if v == PS2C_CMD_PULSE_RESET {
            self.act(PS2Effect::RequestReset)
        } else {
            self
        }
    }

    /// The status register, which always reports an unlocked keyboard.
    pub open spec fn status(self) -> u8 {
        (STATUS_UNLOCKED + bit_if(
            self.resp is Some || self.kbd.buf.len() > 0 || self.mouse.buf.len() > 0,
            STATUS_OUT_FULL,
        ) + bit_if(self.mouse.buf.len() > 0, STATUS_AUX_FULL) + bit_if(
            self.cmd_prefix is Some,
            STATUS_CMD_DATA,
        ) + bit_if(self.cfg & CFG_SYS_FLAG != 0, STATUS_SYS_FLAG)) as u8
    }

    /// A key of the remote client. Keys that have no scan code are ignored.
    pub open spec fn key(self, codes: Option<(Seq<u8>, Seq<u8>)>) -> Ps2 {
        match codes {
            Some((set1, set2)) => {
                let code = if self.cfg & CFG_PRI_XLATE_EN != 0 {
                    set1
                } else {
                    set2
                };
                let kbd = Kbd { buf: queued_all(self.kbd.buf, code), ..self.kbd };
                Ps2 { kbd, ..self }.interrupts()
            },
            None => self,
        }
    }
}

/// The scan codes of a key, if it has any.
pub open spec fn codes_of(rep: Option<KeyEventRep>) -> Option<(Seq<u8>, Seq<u8>)> {
    match rep {
        Some(r) => Some((r.set1@, r.set2@)),
        None => None,
    }
}

impl PS2Ctrl {
    pub fn create() -> (r: Self)
        ensures
            r@ == Ps2::fresh(),
            r@.wf(),
    {
        let mut ram: Vec<u8> = Vec::new();
        let mut i: usize = 0;
        while i < PS2C_RAM_LEN
            invariant
                i <= PS2C_RAM_LEN,
                ram@ == Seq::new(i as nat, |k: int| 0u8),
            decreases PS2C_RAM_LEN - i,
        {
            ram.push(0);
            i += 1;
            assert(ram@ =~= Seq::new(i as nat, |k: int| 0u8));
        }
        let r = PS2Ctrl {
            resp: None,
            cmd_prefix: None,
            ctrl_cfg: 0,
            ctrl_out_port: 0,
            ram,
            pri_port: PS2Kbd::new(),
            aux_port: PS2Mouse::new(),
            effects: Vec::new(),
        };
        assert(r@.ram =~= Ps2::fresh().ram);
        assert(r@.effects =~= Ps2::fresh().effects);
        r
    }

    /// Hand over what the controller did outside itself, oldest first, and
    /// forget it.
    pub fn take_effects(&mut self) -> (r: Vec<PS2Effect>)
        ensures
            r@ == old(self)@.effects,
            final(self)@ == (Ps2 { effects: Seq::empty(), ..old(self)@ }),
    {
        let mut taken: Vec<PS2Effect> = Vec::new();
        taken.append(&mut self.effects);
        assert(taken@ =~= old(self)@.effects);
        assert(self@.effects =~= Seq::empty());
        taken
    }

    /// A key of the remote client, as the scan codes it has. `None` is a key
    /// that the keyboard does not know.
    pub fn key_event(&mut self, rep: &Option<KeyEventRep>)
        requires
            old(self)@.wf(),
        ensures
            final(self)@ == old(self)@.key(codes_of(*rep)),
            final(self)@.wf(),
    {
        let translate = self.ctrl_cfg & CFG_PRI_XLATE_EN != 0;
        match rep {
            Some(codes) => {
                // With translation enabled the guest expects scan code set 1.
                // Otherwise it expects set 2.
                if translate {
                    self.pri_port.recv_scancode(codes.set1.as_slice());
                } else {
                    self.pri_port.recv_scancode(codes.set2.as_slice());
                }
                self.update_intr();
            },
            // ignore any unrecognized keys
            None => {},
        }
    }

    /// A guest access to one of the two ports. A read returns the bytes it
    /// sees, a write nothing.
    pub fn pio_rw(&mut self, port: u16, rwo: RWOp<'_>) -> (r: Vec<u8>)
        requires
            old(self)@.wf(),
            port == PORT_PS2_DATA || port == PORT_PS2_CMD_STATUS,
        ensures
            final(self)@.wf(),
            match rwo {
                RWOp::Read(len) => if port == PORT_PS2_DATA {
                    let (v, after) = old(self)@.data_taken();
                    r@ == single(v, len as nat) && final(self)@ == after
                } else {
                    r@ == single(old(self)@.status(), len as nat) && final(self)@ == old(self)@
                },
                RWOp::Write(bytes) => {
                    let v = written8(bytes@);
                    &&& r@.len() == 0
                    &&& port == PORT_PS2_DATA ==> final(self)@ == old(self)@.data_written(v)
                    &&& port != PORT_PS2_DATA ==> final(self)@ == old(self)@.cmd_written(v)
                },
            },
    {
        match rwo {
            RWOp::Read(len) => {
                if port == PORT_PS2_DATA {
                    answer_byte(self.data_read(), len)
                } else {
                    answer_byte(self.status_read(), len)
                }
            },
            RWOp::Write(bytes) => {
                if port == PORT_PS2_DATA {
                    self.data_write(write_value8(bytes));
                } else {
                    self.cmd_write(write_value8(bytes));
                }
                Vec::new()
            },
        }
    }

    fn data_write(&mut self, v: u8)
        requires
            old(self)@.wf(),
        ensures
            final(self)@ == old(self)@.data_written(v),
            final(self)@.wf(),
    {
        // A pending controller command takes this byte as its argument.
        // Otherwise the byte is a keyboard command.
        match self.cmd_prefix {
            Some(prefix) => {
                self.cmd_prefix = None;
                self.take_argument(prefix, v);
            },
            None => {
                self.pri_port.cmd_input(v);
            },
        }
        self.update_intr();
    }

    fn take_argument(&mut self, prefix: u8, v: u8)
        requires
            takes_argument(prefix),
            old(self)@.wf(),
            old(self)@.cmd_prefix is None,
        ensures
            final(self)@ == old(self)@.argument(prefix, v),
            final(self)@.wf(),
    {
        if prefix == PS2C_CMD_WRITE_CTRL_CFG {
            self.ctrl_cfg = v & CFG_BITS;
        } else if PS2C_CMD_WRITE_RAM_START <= prefix && prefix <= PS2C_CMD_WRITE_RAM_END {
            let off: usize = (prefix - PS2C_CMD_WRITE_RAM_START) as usize;
            self.ram[off] = v;
        } else if prefix == PS2C_CMD_WRITE_CTLR_OUT {
            self.ctrl_out_port = v & OUT_BITS;
        } else if prefix == PS2C_CMD_WRITE_PRI_OUT {
            self.pri_port.loopback(v);
        } else if prefix == PS2C_CMD_WRITE_AUX_OUT {
            self.aux_port.loopback(v);
        } else {
            self.aux_port.cmd_input(v);
        }
    }

    fn data_read(&mut self) -> (r: u8)
        requires
            old(self)@.wf(),
        ensures
            (r, final(self)@) == old(self)@.data_taken(),
            final(self)@.wf(),
    {
        match self.resp {
            Some(rval) => {
                self.resp = None;
                rval
            },
            None => {
                if self.pri_port.has_output() {
                    let rval = self.pri_port.read_output();
                    self.update_intr();
                    match rval {
                        Some(v) => v,
                        None => 0,
                    }
                } else if self.aux_port.has_output() {
                    let rval = self.aux_port.read_output();
                    self.update_intr();
                    match rval {
                        Some(v) => v,
                        None => 0,
                    }
                } else {
                    0
                }
            },
        }
    }

    fn cmd_write(&mut self, v: u8)
        requires
            old(self)@.wf(),
        ensures
            final(self)@ == old(self)@.cmd_written(v),
            final(self)@.wf(),
    {
        if v == PS2C_CMD_READ_CTRL_CFG {
            self.resp = Some(self.ctrl_cfg);
        } else if PS2C_CMD_READ_RAM_START <= v && v <= PS2C_CMD_READ_RAM_END {
            let off: usize = (v - PS2C_CMD_READ_RAM_START) as usize;
            self.resp = Some(self.ram[off]);
        } else if v == PS2C_CMD_CTRL_TEST {
            self.resp = Some(PS2C_R_CTRL_TEST_PASS);
        } else if v == PS2C_CMD_PRI_PORT_TEST || v == PS2C_CMD_AUX_PORT_TEST {
            self.resp = Some(PS2C_R_PORT_TEST_PASS);
        } else if v == PS2C_CMD_PRI_PORT_ENA || v == PS2C_CMD_PRI_PORT_DIS {
            self.ctrl_cfg = set_bits(
                self.ctrl_cfg,
                CFG_PRI_CLOCK_DIS,
                v == PS2C_CMD_PRI_PORT_DIS,
            );
        } else if v == PS2C_CMD_AUX_PORT_ENA || v == PS2C_CMD_AUX_PORT_DIS {
            self.ctrl_cfg = set_bits(
                self.ctrl_cfg,
                CFG_AUX_CLOCK_DIS,
                v == PS2C_CMD_AUX_PORT_DIS,
            );
        } else if v == PS2C_CMD_READ_CTLR_OUT {
            let val: u8 = set_bits(self.ctrl_out_port, OUT_PRI_FULL, self.pri_port.has_output());
            self.resp = Some(set_bits(val, OUT_AUX_FULL, self.aux_port.has_output()));
        } else if v == PS2C_CMD_WRITE_CTRL_CFG || v == PS2C_CMD_WRITE_CTLR_OUT || (
        PS2C_CMD_WRITE_PRI_OUT <= v && v <= PS2C_CMD_WRITE_AUX_IN) || (PS2C_CMD_WRITE_RAM_START
            <= v && v <= PS2C_CMD_WRITE_RAM_END) {
            // commands with a following byte to complete
            self.cmd_prefix = Some(v);
        } else if v == PS2C_CMD_PULSE_RESET {
            self.effects.push(PS2Effect::RequestReset);
        }
        // All other commands are ignored.
    }

    fn status_read(&self) -> (r: u8)
        ensures
            r == self@.status(),
    {
        let pri = self.pri_port.has_output();
        let aux = self.aux_port.has_output();
        // Always report unlocked
        let mut val: u8 = STATUS_UNLOCKED;
        if self.resp.is_some() || pri || aux {
            val = val + STATUS_OUT_FULL;
        }
        if aux {
            val = val + STATUS_AUX_FULL;
        }
        if self.cmd_prefix.is_some() {
            val = val + STATUS_CMD_DATA;
        }
        if self.ctrl_cfg & CFG_SYS_FLAG != 0 {
            val = val + STATUS_SYS_FLAG;
        }
        val
    }

    fn update_intr(&mut self)
        ensures
            final(self)@ == old(self)@.interrupts(),
    {
        // Gate the keyboard interrupt on the clock-disable bit as well as on
        // the interrupt-enable bit.
        if self.ctrl_cfg & CFG_PRI_INTR_EN != 0 && self.ctrl_cfg & CFG_PRI_CLOCK_DIS == 0
            && self.pri_port.has_output() {
            self.effects.push(PS2Effect::PulsePrimary);
        }
        if self.ctrl_cfg & CFG_AUX_INTR_EN != 0 && self.aux_port.has_output() {
            self.effects.push(PS2Effect::PulseAuxiliary);
        }
    }

    /// Put everything back to its power-on state. What was done outside stays
    /// done.
    pub fn reset(&mut self)
        requires
            old(self)@.wf(),
        ensures
            final(self)@ == (Ps2 { effects: old(self)@.effects, ..Ps2::fresh() }),
            final(self)@.wf(),
    {
        self.pri_port.reset();
        self.aux_port.reset();
        self.resp = None;
        self.cmd_prefix = None;
        self.ctrl_cfg = 0;
        self.ctrl_out_port = 0;
        let mut i: usize = 0;
        while i < self.ram.len()
            invariant
                i <= self.ram@.len(),
                self.ram@.len() == PS2C_RAM_LEN,
                forall|k: int| 0 <= k < i ==> self.ram@[k] == 0,
                self@ == (Ps2 {
                    ram: self.ram@,
                    effects: old(self)@.effects,
                    ..Ps2::fresh()
                }),
            decreases self.ram@.len() - i,
        {
            self.ram[i] = 0;
            i += 1;
        }
        assert(self@.ram =~= Ps2::fresh().ram);
        self.update_intr();
    }
}

fn set_bits(v: u8, mask: u8, on: bool) -> (r: u8)
    ensures
        r == with_bits(v, mask, on),
{
    if on {
        v | mask
    } else {
        v & !mask
    }
}

/// A configuration byte is read back with the bits that it has, and reading
/// it leaves the controller as it was.
pub proof fn config_reads_back(c: Ps2, v: u8)
    ensures
        ({
            let set = c.cmd_written(PS2C_CMD_WRITE_CTRL_CFG).data_written(v);
            let (got, after) = set.cmd_written(PS2C_CMD_READ_CTRL_CFG).data_taken();
            &&& set.cfg == v & CFG_BITS
            &&& got == v & CFG_BITS
            &&& after == (Ps2 { resp: None, ..set })
        }),
{
}

/// A byte of internal RAM is read back, and no write reaches another byte.
pub proof fn ram_reads_back(c: Ps2, n: u8, m: u8, v: u8)
    requires
        c.ram.len() == PS2C_RAM_LEN,
        n < PS2C_RAM_LEN,
        m < PS2C_RAM_LEN,
    ensures
        ({
            let set = c.cmd_written((PS2C_CMD_WRITE_RAM_START + n) as u8).data_written(v);
            let got = set.cmd_written((PS2C_CMD_READ_RAM_START + m) as u8).data_taken().0;
            got == if m == n {
                v
            } else {
                c.ram[m as int]
            }
        }),
{
}

/// What every guest access keeps.
pub proof fn invariant_kept(c: Ps2, v: u8, codes: Option<(Seq<u8>, Seq<u8>)>)
    requires
        c.wf(),
    ensures
        c.data_written(v).wf(),
        c.cmd_written(v).wf(),
        c.data_taken().1.wf(),
        c.key(codes).wf(),
{
    match codes {
        Some((set1, set2)) => {
            super::output_is_bounded(c.kbd.buf, set1);
            super::output_is_bounded(c.kbd.buf, set2);
        },
        None => {},
    }
}

/// The keyboard's output reaches the guest in order, before the mouse's, and
/// the status register says so while any is left.
pub proof fn keyboard_output_in_order(c: Ps2)
    requires
        c.resp is None,
        c.kbd.buf.len() > 0,
    ensures
        c.data_taken().0 == c.kbd.buf[0],
        c.data_taken().1.kbd.buf == c.kbd.buf.skip(1),
        c.data_taken().1.mouse == c.mouse,
        c.status() % 2 == 1,
{
}

} // verus!
