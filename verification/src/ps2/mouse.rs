//! The mouse behind the auxiliary port.

use std::collections::VecDeque;

use vstd::prelude::*;
use vstd::std_specs::vecdeque::*;

use super::{queued, PS2_BUFSZ};

verus! {

pub const PS2M_CMD_RESET: u8 = 0xff;

pub const PS2M_CMD_RESEND: u8 = 0xfe;

pub const PS2M_CMD_SET_DEFAULTS: u8 = 0xf6;

pub const PS2M_CMD_DATA_REP_DIS: u8 = 0xf5;

pub const PS2M_CMD_DATA_REP_ENA: u8 = 0xf4;

pub const PS2M_CMD_SET_SAMP_RATE: u8 = 0xf3;

pub const PS2M_CMD_GET_DEVID: u8 = 0xf2;

pub const PS2M_CMD_REMOTE_MODE_SET: u8 = 0xf0;

pub const PS2M_CMD_WRAP_MODE_SET: u8 = 0xee;

pub const PS2M_CMD_WRAP_MODE_RESET: u8 = 0xec;

pub const PS2M_CMD_READ_DATA: u8 = 0xeb;

pub const PS2M_CMD_STREAM_MODE_SET: u8 = 0xea;

pub const PS2M_CMD_STATUS_REQ: u8 = 0xe9;

pub const PS2M_CMD_RESOLUTION_SET: u8 = 0xe8;

pub const PS2M_CMD_SCALING1_SET: u8 = 0xe7;

pub const PS2M_CMD_SCALING2_SET: u8 = 0xe6;

pub const PS2M_R_ACK: u8 = 0xfa;

pub const PS2M_R_SELF_TEST_PASS: u8 = 0xaa;

/// Basic mouse device ID.
pub const PS2M_R_DEVID: u8 = 0x00;

/// Buttons, scaling, and reporting mode, as the status byte has them.
///
/// The buttons in bits 0 to 2 are never pressed.
#[derive(Debug, Clone, Copy, PartialEq, Eq, Structural)]
pub struct PS2MStatus {
    /// Scaling 2:1 (bit 4).
    pub scale2: bool,
    /// Data reporting enabled (bit 5).
    pub enable: bool,
    /// Remote mode (bit 6).
    pub remote: bool,
}

impl PS2MStatus {
    pub open spec fn spec_bits(self) -> u8 {
        ((if self.scale2 {
            0x10int
        } else {
            0
        }) + (if self.enable {
            0x20int
        } else {
            0
        }) + (if self.remote {
            0x40int
        } else {
            0
        })) as u8
    }

    pub open spec fn spec_empty() -> PS2MStatus {
        PS2MStatus { scale2: false, enable: false, remote: false }
    }

    pub fn empty() -> (r: PS2MStatus)
        ensures
            r == Self::spec_empty(),
    {
        PS2MStatus { scale2: false, enable: false, remote: false }
    }

    /// The status byte.
    pub fn bits(&self) -> (r: u8)
        ensures
            r == self.spec_bits(),
    {
        let scale2: u8 = if self.scale2 {
            0x10
        } else {
            0
        };
        let enable: u8 = if self.enable {
            0x20
        } else {
            0
        };
        let remote: u8 = if self.remote {
            0x40
        } else {
            0
        };
        scale2 + enable + remote
    }
}

/// The mouse.
pub struct PS2Mouse {
    buf: VecDeque<u8>,
    cur_cmd: Option<u8>,
    status: PS2MStatus,
    resolution: u8,
    sample_rate: u8,
}

/// The mouse as the guest sees it.
pub ghost struct Mouse {
    /// What the guest has still to read, oldest first.
    pub buf: Seq<u8>,
    /// The command whose second byte has to come.
    pub cur_cmd: Option<u8>,
    pub status: PS2MStatus,
    pub resolution: u8,
    pub sample_rate: u8,
}

impl View for PS2Mouse {
    type V = Mouse;

    closed spec fn view(&self) -> Mouse {
        Mouse {
            buf: self.buf@,
            cur_cmd: self.cur_cmd,
            status: self.status,
            resolution: self.resolution,
            sample_rate: self.sample_rate,
        }
    }
}

/// Whether a command takes a second byte.
pub open spec fn two_part(cmd: u8) -> bool {
    cmd == PS2M_CMD_SET_SAMP_RATE || cmd == PS2M_CMD_RESOLUTION_SET
}

impl Mouse {
    /// A mouse after a reset.
    pub open spec fn fresh() -> Mouse {
        Mouse {
            buf: Seq::empty(),
            cur_cmd: None,
            status: PS2MStatus::spec_empty(),
            resolution: 0,
            sample_rate: 10,
        }
    }

    /// The output fits its buffer, and only a command that takes a second
    /// byte waits for one.
    pub open spec fn wf(self) -> bool {
        &&& self.buf.len() <= PS2_BUFSZ
        &&& self.cur_cmd matches Some(cmd) ==> two_part(cmd)
    }

    pub open spec fn resp(self, v: u8) -> Mouse {
        Mouse { buf: queued(self.buf, v), ..self }
    }

    /// A movement packet: no button, no movement.
    pub open spec fn movement(self) -> Mouse {
        self.resp(0x08).resp(0).resp(0)
    }

    /// The second byte of the command `cmd`, which is not acknowledged.
    pub open spec fn argument(self, cmd: u8, v: u8) -> Mouse {
        let m = Mouse { cur_cmd: None, ..self };
        if cmd == PS2M_CMD_SET_SAMP_RATE {
            Mouse { sample_rate: v, ..m }
        } else {
            Mouse { resolution: v, ..m }
        }
    }

    /// A byte that begins a command.
    pub open spec fn command(self, v: u8) -> Mouse {
        let st = self.status;
        if v == PS2M_CMD_RESET {
            Mouse::fresh().resp(PS2M_R_ACK).resp(PS2M_R_SELF_TEST_PASS).resp(PS2M_R_DEVID)
        } else if v == PS2M_CMD_RESEND || v == PS2M_CMD_SET_DEFAULTS || v == PS2M_CMD_WRAP_MODE_SET
            || v == PS2M_CMD_WRAP_MODE_RESET {
            self.resp(PS2M_R_ACK)
        } else if v == PS2M_CMD_DATA_REP_DIS {
            Mouse { status: PS2MStatus { enable: false, ..st }, ..self }.resp(PS2M_R_ACK)
        } else if v == PS2M_CMD_DATA_REP_ENA {
            Mouse { status: PS2MStatus { enable: true, ..st }, ..self }.resp(PS2M_R_ACK)
        } else if v == PS2M_CMD_GET_DEVID {
            self.resp(PS2M_R_ACK).resp(PS2M_R_DEVID)
        } else if v == PS2M_CMD_REMOTE_MODE_SET {
            Mouse { status: PS2MStatus { remote: true, ..st }, ..self }.resp(PS2M_R_ACK)
        } else if v == PS2M_CMD_READ_DATA {
            self.resp(PS2M_R_ACK).movement()
        } else if v == PS2M_CMD_STATUS_REQ {
            self.resp(PS2M_R_ACK).resp(st.spec_bits()).resp(self.resolution).resp(self.sample_rate)
        } else if two_part(v) {
            Mouse { cur_cmd: Some(v), ..self }.resp(PS2M_R_ACK)
        } else if v == PS2M_CMD_SCALING1_SET {
            Mouse { status: PS2MStatus { scale2: false, ..st }, ..self }.resp(PS2M_R_ACK)
        } else if v == PS2M_CMD_SCALING2_SET {
            Mouse { status: PS2MStatus { scale2: true, ..st }, ..self }.resp(PS2M_R_ACK)
        } else {
            // Stream mode, and everything that is not a command.
            self
        }
    }

    /// A byte the guest sends to the mouse.
    pub open spec fn input(self, v: u8) -> Mouse {
        match self.cur_cmd {
            Some(cmd) => self.argument(cmd, v),
            None => self.command(v),
        }
    }
}

impl PS2Mouse {
    pub fn new() -> (r: Self)
        ensures
            r@ == Mouse::fresh(),
    {
        let r = PS2Mouse {
            buf: VecDeque::new(),
            cur_cmd: None,
            status: PS2MStatus::empty(),
            resolution: 0,
            sample_rate: 10,
        };
        assert(r@.buf =~= Mouse::fresh().buf);
        r
    }

    /// Take a byte the guest sends to the mouse.
    pub fn cmd_input(&mut self, v: u8)
        requires
            old(self)@.wf(),
        ensures
            final(self)@ == old(self)@.input(v),
            final(self)@.wf(),
    {
        match self.cur_cmd {
            Some(cmd) => {
                self.cur_cmd = None;
                if cmd == PS2M_CMD_SET_SAMP_RATE {
                    self.sample_rate = v;
                } else {
                    self.resolution = v;
                }
            },
            None => {
                self.begin_command(v);
            },
        }
    }

    fn begin_command(&mut self, v: u8)
        requires
            old(self)@.wf(),
            old(self)@.cur_cmd is None,
        ensures
            final(self)@ == old(self)@.command(v),
            final(self)@.wf(),
    {
        if v == PS2M_CMD_RESET {
            self.reset();
            self.resp(PS2M_R_ACK);
            self.resp(PS2M_R_SELF_TEST_PASS);
            self.resp(PS2M_R_DEVID);
        } else if v == PS2M_CMD_RESEND || v == PS2M_CMD_SET_DEFAULTS || v == PS2M_CMD_WRAP_MODE_SET
            || v == PS2M_CMD_WRAP_MODE_RESET {
            // No last byte is tracked, so a resend is only acknowledged.
            self.resp(PS2M_R_ACK);
        } else if v == PS2M_CMD_DATA_REP_DIS {
            self.resp(PS2M_R_ACK);
            self.status.enable = false;
        } else if v == PS2M_CMD_DATA_REP_ENA {
            self.resp(PS2M_R_ACK);
            self.status.enable = true;
        } else if v == PS2M_CMD_GET_DEVID {
            self.resp(PS2M_R_ACK);
            // standard ps2 mouse dev id
            self.resp(PS2M_R_DEVID);
        } else if v == PS2M_CMD_REMOTE_MODE_SET {
            self.resp(PS2M_R_ACK);
            self.status.remote = true;
        } else if v == PS2M_CMD_READ_DATA {
            self.resp(PS2M_R_ACK);
            self.movement();
        } else if v == PS2M_CMD_STATUS_REQ {
            // status, resolution, sample rate
            self.resp(PS2M_R_ACK);
            self.resp(self.status.bits());
            self.resp(self.resolution);
            self.resp(self.sample_rate);
        } else if v == PS2M_CMD_SET_SAMP_RATE || v == PS2M_CMD_RESOLUTION_SET {
            self.cur_cmd = Some(v);
            self.resp(PS2M_R_ACK);
        } else if v == PS2M_CMD_SCALING1_SET || v == PS2M_CMD_SCALING2_SET {
            self.status.scale2 = v == PS2M_CMD_SCALING2_SET;
            self.resp(PS2M_R_ACK);
        }
        // Unrecognized commands are ignored, and stream mode is not modelled.
    }

    pub fn resp(&mut self, v: u8)
        requires
            old(self)@.buf.len() <= PS2_BUFSZ,
        ensures
            final(self)@ == old(self)@.resp(v),
            final(self)@.buf.len() <= PS2_BUFSZ,
    {
        let remain: usize = PS2_BUFSZ - self.buf.len();
        if remain == 0 {
            // overrun already in progress, do nothing
        } else if remain == 1 {
            // indicate overflow instead
            self.buf.push_back(0xff);
        } else {
            self.buf.push_back(v);
        }
    }

    pub fn reset(&mut self)
        ensures
            final(self)@ == Mouse::fresh(),
    {
        self.buf.clear();
        self.cur_cmd = None;
        self.status = PS2MStatus::empty();
        self.resolution = 0;
        self.sample_rate = 10;
        assert(self@.buf =~= Mouse::fresh().buf);
    }

    pub fn has_output(&self) -> (r: bool)
        ensures
            r == (self@.buf.len() > 0),
    {
        self.buf.len() > 0
    }

    pub fn read_output(&mut self) -> (r: Option<u8>)
        ensures
            old(self)@.buf.len() == 0 ==> r is None && final(self)@ == old(self)@,
            old(self)@.buf.len() > 0 ==> r == Some(old(self)@.buf[0]) && final(self)@ == (Mouse {
                buf: old(self)@.buf.skip(1),
                ..old(self)@
            }),
    {
        let r = self.buf.pop_front();
        proof {
            if old(self)@.buf.len() > 0 {
                assert(self@.buf =~= old(self)@.buf.skip(1));
            } else {
                assert(self@.buf =~= old(self)@.buf);
            }
        }
        r
    }

    pub fn loopback(&mut self, v: u8)
        requires
            old(self)@.buf.len() <= PS2_BUFSZ,
        ensures
            final(self)@ == old(self)@.resp(v),
            final(self)@.buf.len() <= PS2_BUFSZ,
    {
        self.resp(v);
    }

    /// Queue a movement packet.
    pub fn movement(&mut self)
        requires
            old(self)@.buf.len() <= PS2_BUFSZ,
        ensures
            final(self)@ == old(self)@.movement(),
            final(self)@.buf.len() <= PS2_BUFSZ,
    {
        // no buttons, just the always-one bit
        self.resp(0x08);
        // no X movement
        self.resp(0x00);
        // no Y movement
        self.resp(0x00);
    }
}

impl Default for PS2Mouse {
    fn default() -> (r: Self)
        ensures
            r@ == Mouse::fresh(),
    {
        Self::new()
    }
}

} // verus!
