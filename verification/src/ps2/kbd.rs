//! The keyboard behind the primary port.

use std::collections::VecDeque;

use vstd::prelude::*;
use vstd::std_specs::vecdeque::*;

use super::{queued, queued_all, PS2_BUFSZ};

verus! {

pub const PS2K_CMD_SET_LEDS: u8 = 0xed;

pub const PS2K_CMD_SCAN_CODE: u8 = 0xf0;

pub const PS2K_CMD_TYPEMATIC: u8 = 0xf3;

pub const PS2K_CMD_ECHO: u8 = 0xee;

pub const PS2K_CMD_IDENT: u8 = 0xf2;

pub const PS2K_CMD_SCAN_EN: u8 = 0xf4;

pub const PS2K_CMD_SCAN_DIS: u8 = 0xf5;

pub const PS2K_CMD_SET_DEFAULT: u8 = 0xf6;

pub const PS2K_CMD_RESEND: u8 = 0xfe;

pub const PS2K_CMD_RESET: u8 = 0xff;

pub const PS2K_R_ACK: u8 = 0xfa;

pub const PS2K_R_ECHO: u8 = 0xee;

pub const PS2K_R_SELF_TEST_PASS: u8 = 0xaa;

/// The scan code sets the keyboard speaks.
#[derive(Debug, Clone, Copy, PartialEq, Eq, Structural)]
pub enum PS2ScanCodeSet {
    Set1,
    Set2,
}

impl PS2ScanCodeSet {
    pub open spec fn byte(self) -> u8 {
        match self {
            PS2ScanCodeSet::Set1 => 1,
            PS2ScanCodeSet::Set2 => 2,
        }
    }

    pub fn as_byte(&self) -> (r: u8)
        ensures
            r == self.byte(),
    {
        match self {
            PS2ScanCodeSet::Set1 => 0x1,
            PS2ScanCodeSet::Set2 => 0x2,
        }
    }
}

/// The keyboard.
pub struct PS2Kbd {
    buf: VecDeque<u8>,
    cur_cmd: Option<u8>,
    enabled: bool,
    led_status: u8,
    typematic: u8,
    scan_code_set: PS2ScanCodeSet,
}

/// The keyboard as the guest sees it.
pub ghost struct Kbd {
    /// What the guest has still to read, oldest first.
    pub buf: Seq<u8>,
    /// The command whose second byte has to come.
    pub cur_cmd: Option<u8>,
    pub enabled: bool,
    pub led_status: u8,
    pub typematic: u8,
    pub scan_code_set: PS2ScanCodeSet,
}

impl View for PS2Kbd {
    type V = Kbd;

    closed spec fn view(&self) -> Kbd {
        Kbd {
            buf: self.buf@,
            cur_cmd: self.cur_cmd,
            enabled: self.enabled,
            led_status: self.led_status,
            typematic: self.typematic,
            scan_code_set: self.scan_code_set,
        }
    }
}

/// Whether a command takes a second byte.
pub open spec fn two_part(cmd: u8) -> bool {
    cmd == PS2K_CMD_SET_LEDS || cmd == PS2K_CMD_SCAN_CODE || cmd == PS2K_CMD_TYPEMATIC
}

impl Kbd {
    /// A keyboard after a reset.
    pub open spec fn fresh() -> Kbd {
        Kbd {
            buf: Seq::empty(),
            cur_cmd: None,
            enabled: true,
            led_status: 0,
            typematic: 0,
            scan_code_set: PS2ScanCodeSet::Set1,
        }
    }

    /// The output fits its buffer, and only a command that takes a second
    /// byte waits for one.
    pub open spec fn wf(self) -> bool {
        &&& self.buf.len() <= PS2_BUFSZ
        &&& self.cur_cmd matches Some(cmd) ==> two_part(cmd)
    }

    pub open spec fn resp(self, v: u8) -> Kbd {
        Kbd { buf: queued(self.buf, v), ..self }
    }

    /// The second byte of the command `cmd`.
    pub open spec fn argument(self, cmd: u8, v: u8) -> Kbd {
        let k = Kbd { cur_cmd: None, ..self };
        if cmd == PS2K_CMD_SET_LEDS {
            // Scroll, num and caps lock.
            Kbd { led_status: (v % 8) as u8, ..k }.resp(PS2K_R_ACK)
        } else if cmd == PS2K_CMD_SCAN_CODE {
            if v == 0 {
                k.resp(PS2K_R_ACK).resp(k.scan_code_set.byte())
            } else if v == 1 {
                Kbd { scan_code_set: PS2ScanCodeSet::Set1, ..k }.resp(PS2K_R_ACK)
            } else if v == 2 {
                Kbd { scan_code_set: PS2ScanCodeSet::Set2, ..k }.resp(PS2K_R_ACK)
            } else {
                k
            }
        } else {
            Kbd { typematic: (v % 0x80) as u8, ..k }.resp(PS2K_R_ACK)
        }
    }

    /// A byte that begins a command.
    pub open spec fn command(self, v: u8) -> Kbd {
        if two_part(v) {
            Kbd { cur_cmd: Some(v), ..self }.resp(PS2K_R_ACK)
        } else if v == PS2K_CMD_ECHO {
            self.resp(PS2K_R_ECHO)
        } else if v == PS2K_CMD_IDENT {
            // An MF2 keyboard.
            self.resp(PS2K_R_ACK).resp(0xab).resp(0x83)
        } else if v == PS2K_CMD_SCAN_EN {
            Kbd { enabled: true, ..self }.resp(PS2K_R_ACK)
        } else if v == PS2K_CMD_SCAN_DIS {
            Kbd { enabled: false, ..self }.resp(PS2K_R_ACK)
        } else if v == PS2K_CMD_SET_DEFAULT || v == PS2K_CMD_RESEND {
            self.resp(PS2K_R_ACK)
        } else if v == PS2K_CMD_RESET {
            Kbd::fresh().resp(PS2K_R_ACK).resp(PS2K_R_SELF_TEST_PASS)
        } else {
            self
        }
    }

    /// A byte the guest sends to the keyboard.
    pub open spec fn input(self, v: u8) -> Kbd {
        match self.cur_cmd {
            Some(cmd) => self.argument(cmd, v),
            None => self.command(v),
        }
    }
}

impl PS2Kbd {
    pub fn new() -> (r: Self)
        ensures
            r@ == Kbd::fresh(),
    {
        let r = PS2Kbd {
            buf: VecDeque::new(),
            cur_cmd: None,
            enabled: true,
            led_status: 0,
            typematic: 0,
            scan_code_set: PS2ScanCodeSet::Set1,
        };
        assert(r@.buf =~= Kbd::fresh().buf);
        r
    }

    /// Take a byte the guest sends to the keyboard.
    pub fn cmd_input(&mut self, v: u8)
        requires
            old(self)@.wf(),
        ensures
            final(self)@ == old(self)@.input(v),
            final(self)@.wf(),
    {
        match self.cur_cmd {
            Some(cmd) => {
                self.cur_cmd = None;
                self.finish_command(cmd, v);
            },
            None => {
                self.begin_command(v);
            },
        }
    }

    fn finish_command(&mut self, cmd: u8, v: u8)
        requires
            two_part(cmd),
            old(self)@.wf(),
            old(self)@.cur_cmd is None,
        ensures
            final(self)@ == old(self)@.argument(cmd, v),
            final(self)@.wf(),
    {
        if cmd == PS2K_CMD_SET_LEDS {
            // low three bits set scroll/num/caps lock
            self.led_status = v % 8;
            self.resp(PS2K_R_ACK);
        } else if cmd == PS2K_CMD_SCAN_CODE {
            if v == 0 {
                // get scan code set
                self.resp(PS2K_R_ACK);
                self.resp(self.scan_code_set.as_byte());
            } else if v == 1 {
                self.resp(PS2K_R_ACK);
                self.scan_code_set = PS2ScanCodeSet::Set1;
            } else if v == 2 {
                self.resp(PS2K_R_ACK);
                self.scan_code_set = PS2ScanCodeSet::Set2;
            }
        } else {
            self.typematic = v % 0x80;
            self.resp(PS2K_R_ACK);
        }
    }

    fn begin_command(&mut self, v: u8)
        requires
            old(self)@.wf(),
            old(self)@.cur_cmd is None,
        ensures
            final(self)@ == old(self)@.command(v),
            final(self)@.wf(),
    {
        if v == PS2K_CMD_SET_LEDS || v == PS2K_CMD_SCAN_CODE || v == PS2K_CMD_TYPEMATIC {
            // multi-part command, wait for next byte
            self.cur_cmd = Some(v);
            self.resp(PS2K_R_ACK);
        } else if v == PS2K_CMD_ECHO {
            self.resp(PS2K_R_ECHO);
        } else if v == PS2K_CMD_IDENT {
            self.resp(PS2K_R_ACK);
            // MF2 keyboard
            self.resp(0xab);
            self.resp(0x83);
        } else if v == PS2K_CMD_SCAN_EN {
            self.enabled = true;
            self.resp(PS2K_R_ACK);
        } else if v == PS2K_CMD_SCAN_DIS {
            self.enabled = false;
            self.resp(PS2K_R_ACK);
        } else if v == PS2K_CMD_SET_DEFAULT || v == PS2K_CMD_RESEND {
            // No last byte is tracked, so a resend is only acknowledged.
            self.resp(PS2K_R_ACK);
        } else if v == PS2K_CMD_RESET {
            self.reset();
            // Even for reset, ack is expected
            self.resp(PS2K_R_ACK);
            self.resp(PS2K_R_SELF_TEST_PASS);
        }
        // Unrecognized commands are ignored.
    }

    pub fn resp(&mut self, v: u8)
        requires
            old(self)@.buf.len() <= PS2_BUFSZ,
        ensures
            final(self)@ == old(self)@.resp(v),
            final(self)@.buf.len() <= PS2_BUFSZ,
    {
        let remain: usize = PS2_BUFSZ - self.buf.len();
        if remain == 0 {
            // overrun already in progress, do nothing
        } else if remain == 1 {
            // indicate overflow instead
            self.buf.push_back(0xff);
        } else {
            self.buf.push_back(v);
        }
    }

    pub fn reset(&mut self)
        ensures
            final(self)@ == Kbd::fresh(),
    {
        self.cur_cmd = None;
        self.enabled = true;
        self.led_status = 0;
        self.typematic = 0;
        self.scan_code_set = PS2ScanCodeSet::Set1;
        self.buf.clear();
        assert(self@.buf =~= Kbd::fresh().buf);
    }

    pub fn has_output(&self) -> (r: bool)
        ensures
            r == (self@.buf.len() > 0),
    {
        self.buf.len() > 0
    }

    pub fn read_output(&mut self) -> (r: Option<u8>)
        ensures
            old(self)@.buf.len() == 0 ==> r is None && final(self)@ == old(self)@,
            old(self)@.buf.len() > 0 ==> r == Some(old(self)@.buf[0]) && final(self)@ == (Kbd {
                buf: old(self)@.buf.skip(1),
                ..old(self)@
            }),
    {
        let r = self.buf.pop_front();
        proof {
            if old(self)@.buf.len() > 0 {
                assert(self@.buf =~= old(self)@.buf.skip(1));
            } else {
                assert(self@.buf =~= old(self)@.buf);
            }
        }
        r
    }

    pub fn loopback(&mut self, v: u8)
        requires
            old(self)@.buf.len() <= PS2_BUFSZ,
        ensures
            final(self)@ == old(self)@.resp(v),
            final(self)@.buf.len() <= PS2_BUFSZ,
    {
        self.resp(v);
    }

    /// Queue the scan code of a key.
    pub fn recv_scancode(&mut self, scan_code: &[u8])
        requires
            old(self)@.buf.len() <= PS2_BUFSZ,
        ensures
            final(self)@ == (Kbd { buf: queued_all(old(self)@.buf, scan_code@), ..old(self)@ }),
            final(self)@.buf.len() <= PS2_BUFSZ,
    {
        let mut i: usize = 0;
        assert(scan_code@.take(0) =~= Seq::<u8>::empty());
        while i < scan_code.len()
            invariant
                i <= scan_code@.len(),
                self@ == (Kbd {
                    buf: queued_all(old(self)@.buf, scan_code@.take(i as int)),
                    ..old(self)@
                }),
                self@.buf.len() <= PS2_BUFSZ,
            decreases scan_code@.len() - i,
        {
            self.resp(scan_code[i]);
            i += 1;
            assert(scan_code@.take(i as int).drop_last() =~= scan_code@.take(i - 1));
        }
        assert(scan_code@.take(i as int) =~= scan_code@);
    }
}

impl Default for PS2Kbd {
    fn default() -> (r: Self)
        ensures
            r@ == Kbd::fresh(),
    {
        Self::new()
    }
}

} // verus!
