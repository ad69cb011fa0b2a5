//! What a guest driver reads from the keyboard, the mouse and their
//! controller, byte by byte and bit by bit.

use vstd::prelude::*;

use super::ctrl::{PS2Effect, Ps2};
use super::kbd::{Kbd, PS2ScanCodeSet};
use super::mouse::Mouse;
use super::{queued, queued_all};

verus! {

/// A device's output holds sixteen bytes. The one that would be the sixteenth
/// is replaced by the overrun code 0xFF, and further ones are dropped.
pub proof fn output_overruns_at_sixteen(buf: Seq<u8>, v: u8)
    ensures
        buf.len() < 15 ==> queued(buf, v) == buf.push(v),
        buf.len() == 15 ==> queued(buf, v) == buf.push(0xFF),
        buf.len() >= 16 ==> queued(buf, v) == buf,
{
}

/// Bytes that fit go out whole and in their order.
pub proof fn output_is_appended(buf: Seq<u8>, vs: Seq<u8>)
    requires
        buf.len() + vs.len() < 16,
    ensures
        queued_all(buf, vs) == buf + vs,
    decreases vs.len(),
{
    if vs.len() > 0 {
        output_is_appended(buf, vs.drop_last());
        assert(buf + vs =~= (buf + vs.drop_last()).push(vs.last()));
    } else {
        assert(buf + vs =~= buf);
    }
}

/// The keyboard acknowledges by 0xFA, echoes 0xEE, identifies itself as an MF2
/// keyboard and passes its self test after a reset. What is no command is not
/// answered.
pub proof fn keyboard_answers(k: Kbd, v: u8)
    requires
        k.cur_cmd is None,
        k.buf.len() <= 12,
    ensures
        ({
            let out = k.input(v).buf;
            let acked = v == 0xED || v == 0xF0 || v == 0xF3 || v == 0xF4 || v == 0xF5 || v == 0xF6
                || v == 0xFE;
            &&& acked ==> out == k.buf + seq![0xFAu8]
            &&& v == 0xEE ==> out == k.buf + seq![0xEEu8]
            &&& v == 0xF2 ==> out == k.buf + seq![0xFAu8, 0xAB, 0x83]
            &&& v == 0xFF ==> out == seq![0xFAu8, 0xAA]
            &&& !acked && v != 0xEE && v != 0xF2 && v != 0xFF ==> k.input(v) == k
        }),
{
    let out = k.input(v).buf;
    assert(out =~= k.buf + seq![0xFAu8] || v == 0xEE || v == 0xF2 || v == 0xFF || out == k.buf);
    if v == 0xEE {
        assert(out =~= k.buf + seq![0xEEu8]);
    }
    if v == 0xF2 {
        assert(out =~= k.buf + seq![0xFAu8, 0xAB, 0x83]);
    }
    if v == 0xFF {
        assert(out =~= seq![0xFAu8, 0xAA]);
    }
}

/// What the keyboard's commands change: scanning by 0xF4 and 0xF5, and
/// everything by a reset. Of the others only those with an argument leave
/// anything behind, that they wait for it.
pub proof fn keyboard_commands_change(k: Kbd, v: u8)
    requires
        k.cur_cmd is None,
    ensures
        ({
            let after = k.input(v);
            let waits = v == 0xED || v == 0xF0 || v == 0xF3;
            &&& after.enabled == (v == 0xF4 || v == 0xFF || (k.enabled && v != 0xF5))
            &&& after.cur_cmd == if waits {
                Some(v)
            } else {
                None
            }
            &&& v != 0xFF ==> after == (Kbd {
                buf: after.buf,
                enabled: after.enabled,
                cur_cmd: after.cur_cmd,
                ..k
            })
            &&& v == 0xFF ==> after.led_status == 0 && after.typematic == 0 && after.scan_code_set
                == PS2ScanCodeSet::Set1
        }),
{
}

/// A two-byte command takes the byte behind it, whatever that is: the lights
/// by three bits, the repeat rate by seven, and the scan code set by 1 or 2,
/// which 0 asks for. An unknown set is not acknowledged.
pub proof fn keyboard_takes_arguments(k: Kbd, cmd: u8, v: u8)
    requires
        k.cur_cmd is None,
        k.buf.len() <= 12,
        cmd == 0xED || cmd == 0xF0 || cmd == 0xF3,
    ensures
        ({
            let asked = k.input(cmd);
            let after = asked.input(v);
            let set = if k.scan_code_set == PS2ScanCodeSet::Set1 {
                1u8
            } else {
                2u8
            };
            &&& after.cur_cmd is None
            &&& after.led_status == if cmd == 0xED {
                v as int % 8
            } else {
                k.led_status as int
            }
            &&& after.typematic == if cmd == 0xF3 {
                v as int % 0x80
            } else {
                k.typematic as int
            }
            &&& cmd == 0xF0 && v == 1 ==> after.scan_code_set == PS2ScanCodeSet::Set1
            &&& cmd == 0xF0 && v == 2 ==> after.scan_code_set == PS2ScanCodeSet::Set2
            &&& cmd != 0xF0 || (v != 1 && v != 2) ==> after.scan_code_set == k.scan_code_set
            &&& after.enabled == k.enabled
            &&& cmd == 0xF0 && v == 0 ==> after.buf == asked.buf + seq![0xFAu8, set]
            &&& cmd == 0xF0 && v > 2 ==> after.buf == asked.buf
            &&& cmd != 0xF0 || v == 1 || v == 2 ==> after.buf == asked.buf + seq![0xFAu8]
        }),
{
    let asked = k.input(cmd);
    let after = asked.input(v);
    let set = if k.scan_code_set == PS2ScanCodeSet::Set1 {
        1u8
    } else {
        2u8
    };
    if cmd == 0xF0 && v == 0 {
        assert(after.buf =~= asked.buf + seq![0xFAu8, set]);
    } else if cmd != 0xF0 || v <= 2 {
        assert(after.buf =~= asked.buf + seq![0xFAu8]);
    }
}

/// The mouse acknowledges by 0xFA, names itself as device 0, passes its self
/// test after a reset, and has no movement to report. What is no command, and
/// the stream mode that it is always in, is not answered.
pub proof fn mouse_answers(m: Mouse, v: u8)
    requires
        m.cur_cmd is None,
        m.buf.len() <= 11,
    ensures
        ({
            let out = m.input(v).buf;
            let acked = v == 0xFE || v == 0xF6 || v == 0xEE || v == 0xEC || v == 0xF5 || v == 0xF4
                || v == 0xF0 || v == 0xF3 || v == 0xE8 || v == 0xE7 || v == 0xE6;
            let told = v == 0xFF || v == 0xF2 || v == 0xEB || v == 0xE9;
            &&& acked ==> out == m.buf + seq![0xFAu8]
            &&& v == 0xFF ==> out == seq![0xFAu8, 0xAA, 0]
            &&& v == 0xF2 ==> out == m.buf + seq![0xFAu8, 0]
            &&& v == 0xEB ==> out == m.buf + seq![0xFAu8, 8, 0, 0]
            &&& !acked && !told ==> m.input(v) == m
        }),
{
    let out = m.input(v).buf;
    let told = v == 0xFF || v == 0xF2 || v == 0xEB || v == 0xE9;
    assert(told || out == m.buf || out =~= m.buf + seq![0xFAu8]);
    if v == 0xFF {
        assert(out =~= seq![0xFAu8, 0xAA, 0]);
    }
    if v == 0xF2 {
        assert(out =~= m.buf + seq![0xFAu8, 0]);
    }
    if v == 0xEB {
        assert(out =~= m.buf + seq![0xFAu8, 8, 0, 0]);
    }
}

/// The mouse's status, three bytes behind the acknowledgement, says what was
/// set: scaling in bit 4, reporting in bit 5 and remote mode in bit 6 of the
/// first, then the resolution and the sample rate.
pub proof fn mouse_status_is_told(m: Mouse)
    requires
        m.cur_cmd is None,
        m.buf.len() <= 11,
    ensures
        ({
            let after = m.input(0xE9);
            let n = m.buf.len() as int;
            let s = after.buf[n + 1];
            &&& after.buf.len() == n + 4
            &&& after.buf.take(n) == m.buf
            &&& after.buf[n] == 0xFA
            &&& s / 0x10 % 2 == 1 <==> m.status.scale2
            &&& s / 0x20 % 2 == 1 <==> m.status.enable
            &&& s / 0x40 % 2 == 1 <==> m.status.remote
            &&& s % 0x10 == 0 && s / 0x80 == 0
            &&& after.buf[n + 2] == m.resolution
            &&& after.buf[n + 3] == m.sample_rate
            &&& after == (Mouse { buf: after.buf, ..m })
        }),
{
    let n = m.buf.len() as int;
    assert(m.input(0xE9).buf.take(n) =~= m.buf);
}

/// What the mouse's commands set: reporting by 0xF4 and 0xF5, remote mode by
/// 0xF0, scaling by 0xE6 and 0xE7, each until a reset.
pub proof fn mouse_commands_change(m: Mouse, v: u8)
    requires
        m.cur_cmd is None,
    ensures
        ({
            let after = m.input(v);
            &&& after.status.enable == (v == 0xF4 || (m.status.enable && v != 0xF5 && v != 0xFF))
            &&& after.status.remote == (v == 0xF0 || (m.status.remote && v != 0xFF))
            &&& after.status.scale2 == (v == 0xE6 || (m.status.scale2 && v != 0xE7 && v != 0xFF))
            &&& after.cur_cmd == if v == 0xF3 || v == 0xE8 {
                Some(v)
            } else {
                None
            }
            &&& after.resolution == if v == 0xFF {
                0
            } else {
                m.resolution
            }
            &&& after.sample_rate == if v == 0xFF {
                10
            } else {
                m.sample_rate
            }
        }),
{
}

/// The byte behind 0xF3 is the sample rate and the one behind 0xE8 the
/// resolution, without an answer of its own.
pub proof fn mouse_takes_arguments(m: Mouse, cmd: u8, v: u8)
    requires
        m.cur_cmd is None,
        cmd == 0xF3 || cmd == 0xE8,
    ensures
        ({
            let after = m.input(cmd).input(v);
            &&& after.cur_cmd is None
            &&& after.sample_rate == if cmd == 0xF3 {
                v
            } else {
                m.sample_rate
            }
            &&& after.resolution == if cmd == 0xE8 {
                v
            } else {
                m.resolution
            }
            &&& after.buf == m.input(cmd).buf
            &&& after.status == m.status
        }),
{
}

/// The status register: bit 0 while anything waits to be read, bit 2 as the
/// configuration has it, bit 3 while an argument has to come, bit 4 always,
/// bit 5 while the mouse has something, and no other.
pub proof fn status_tells_what_waits(c: Ps2)
    ensures
        ({
            let s = c.status();
            &&& s % 2 == 1 <==> c.resp is Some || c.kbd.buf.len() > 0 || c.mouse.buf.len() > 0
            &&& s / 2 % 2 == 0
            &&& s / 4 % 2 == 1 <==> c.cfg & 4 != 0
            &&& s / 8 % 2 == 1 <==> c.cmd_prefix is Some
            &&& s / 0x10 % 2 == 1
            &&& s / 0x20 % 2 == 1 <==> c.mouse.buf.len() > 0
            &&& s / 0x40 == 0
        }),
{
}

/// A read takes the controller's answer before the keyboard's output and that
/// before the mouse's, oldest first, and 0 where there is nothing.
pub proof fn data_is_read_in_turn(c: Ps2)
    ensures
        ({
            let (v, after) = c.data_taken();
            &&& c.resp is Some ==> v == c.resp->0 && after == (Ps2 { resp: None, ..c })
            &&& c.resp is None && c.kbd.buf.len() > 0 ==> {
                &&& v == c.kbd.buf[0]
                &&& after.kbd == (Kbd { buf: c.kbd.buf.skip(1), ..c.kbd })
                &&& after.mouse == c.mouse
            }
            &&& c.resp is None && c.kbd.buf.len() == 0 && c.mouse.buf.len() > 0 ==> {
                &&& v == c.mouse.buf[0]
                &&& after.mouse == (Mouse { buf: c.mouse.buf.skip(1), ..c.mouse })
                &&& after.kbd == c.kbd
            }
            &&& c.resp is None && c.kbd.buf.len() == 0 && c.mouse.buf.len() == 0 ==> v == 0
                && after == c
        }),
{
}

/// The pulses that `c` owes the guest once something happened: the
/// keyboard's with bit 0 of the configuration set and bit 4 clear, the
/// mouse's with bit 1 set, and each only while that device has something.
pub open spec fn owed(c: Ps2) -> Seq<PS2Effect> {
    let first = if c.cfg & 1 != 0 && c.cfg & 0x10 == 0 && c.kbd.buf.len() > 0 {
        seq![PS2Effect::PulsePrimary]
    } else {
        Seq::empty()
    };
    if c.cfg & 2 != 0 && c.mouse.buf.len() > 0 {
        first.push(PS2Effect::PulseAuxiliary)
    } else {
        first
    }
}

/// Every write of data, every read of a device's output and every key pulses
/// the interrupts that are owed after it, and reading the controller's own
/// answer pulses none.
pub proof fn output_is_announced(c: Ps2, v: u8, set1: Seq<u8>, set2: Seq<u8>)
    ensures
        ({
            let w = c.data_written(v);
            let r = c.data_taken().1;
            let k = c.key(Some((set1, set2)));
            &&& w.effects == c.effects + owed(w)
            &&& c.resp is None && c.kbd.buf.len() + c.mouse.buf.len() > 0 ==> r.effects == c.effects
                + owed(r)
            &&& c.resp is Some ==> r.effects == c.effects
            &&& k.effects == c.effects + owed(k)
            &&& c.key(None) == c
        }),
{
    let w = c.data_written(v);
    let r = c.data_taken().1;
    let k = c.key(Some((set1, set2)));
    assert(w.effects =~= c.effects + owed(w));
    assert(k.effects =~= c.effects + owed(k));
    if c.resp is None && c.kbd.buf.len() + c.mouse.buf.len() > 0 {
        assert(r.effects =~= c.effects + owed(r));
    }
}

/// Only command 0xFE resets the machine, and no command pulses a device's
/// interrupt.
pub proof fn one_command_resets(c: Ps2, v: u8)
    ensures
        c.cmd_written(v).effects == if v == 0xFE {
            c.effects.push(PS2Effect::RequestReset)
        } else {
            c.effects
        },
        c.cmd_written(v).kbd == c.kbd,
        c.cmd_written(v).mouse == c.mouse,
        c.cmd_written(v).ram == c.ram,
        c.cmd_written(v).out_port == c.out_port,
{
}

/// What the controller answers: its test by 0x55, the tests of its two ports
/// by 0, its configuration to 0x20, its output port to 0xD0, its memory to
/// 0x21 and up, and nothing to any other command.
pub proof fn controller_answers(c: Ps2, v: u8)
    requires
        c.ram.len() == 31,
    ensures
        ({
            let after = c.cmd_written(v);
            let memory = 0x21 <= v <= 0x3F;
            &&& v == 0xAA ==> after.resp == Some(0x55u8)
            &&& v == 0xA9 || v == 0xAB ==> after.resp == Some(0u8)
            &&& v == 0x20 ==> after.resp == Some(c.cfg)
            &&& memory ==> after.resp == Some(c.ram[v - 0x21])
            &&& v == 0xD0 ==> after.resp is Some
            &&& v != 0xAA && v != 0xA9 && v != 0xAB && v != 0x20 && v != 0xD0 && !memory
                ==> after.resp == c.resp
        }),
{
}

proof fn masks(cfg: u8)
    ensures
        (cfg | 0x10) & 0x10 != 0,
        (cfg | 0x10) & 0xEF == cfg & 0xEF,
        (cfg & !0x10u8) & 0x10 == 0,
        (cfg & !0x10u8) & 0xEF == cfg & 0xEF,
        (cfg | 0x20) & 0x20 != 0,
        (cfg | 0x20) & 0xDF == cfg & 0xDF,
        (cfg & !0x20u8) & 0x20 == 0,
        (cfg & !0x20u8) & 0xDF == cfg & 0xDF,
        (cfg | 0x20) & 0x10 == cfg & 0x10,
        (cfg & !0x20u8) & 0x10 == cfg & 0x10,
{
    assert({
        &&& (cfg | 0x10) & 0x10 != 0
        &&& (cfg | 0x10) & 0xEF == cfg & 0xEF
        &&& (cfg & !0x10u8) & 0x10 == 0
        &&& (cfg & !0x10u8) & 0xEF == cfg & 0xEF
        &&& (cfg | 0x20) & 0x20 != 0
        &&& (cfg | 0x20) & 0xDF == cfg & 0xDF
        &&& (cfg & !0x20u8) & 0x20 == 0
        &&& (cfg & !0x20u8) & 0xDF == cfg & 0xDF
        &&& (cfg | 0x20) & 0x10 == cfg & 0x10
        &&& (cfg & !0x20u8) & 0x10 == cfg & 0x10
    }) by (bit_vector);
}

/// The keyboard's port is turned off by 0xAD and on by 0xAE, in bit 4 of the
/// configuration, the mouse's by 0xA7 and 0xA8 in bit 5. No other bit moves,
/// and no other command moves any.
pub proof fn ports_are_switched(c: Ps2, v: u8)
    ensures
        ({
            let cfg = c.cmd_written(v).cfg;
            &&& v == 0xAD ==> cfg & 0x10 != 0 && cfg & 0xEF == c.cfg & 0xEF
            &&& v == 0xAE ==> cfg & 0x10 == 0 && cfg & 0xEF == c.cfg & 0xEF
            &&& v == 0xA7 ==> cfg & 0x20 != 0 && cfg & 0xDF == c.cfg & 0xDF
            &&& v == 0xA8 ==> cfg & 0x20 == 0 && cfg & 0xDF == c.cfg & 0xDF
            &&& v != 0xAD && v != 0xAE && v != 0xA7 && v != 0xA8 ==> cfg == c.cfg
        }),
{
    masks(c.cfg);
}

/// The output port says in bits 4 and 5 what the keyboard and the mouse have
/// waiting.
pub proof fn output_port_tells_what_waits(c: Ps2)
    ensures
        ({
            let v = c.cmd_written(0xD0).resp->0;
            &&& v & 0x10 != 0 <==> c.kbd.buf.len() > 0
            &&& v & 0x20 != 0 <==> c.mouse.buf.len() > 0
        }),
{
    masks(c.out_port);
    masks(c.out_port | 0x10);
    masks(c.out_port & !0x10u8);
}

/// The byte behind a controller command goes where the command says: the
/// configuration, the output port and the memory take it as far as they have
/// bits for it, 0xD2 and 0xD3 put it in a device's output, and 0xD4 sends it to
/// the mouse. Without such a command it goes to the keyboard.
pub proof fn arguments_go_where_they_belong(c: Ps2, cmd: u8, v: u8)
    requires
        c.cmd_prefix is None,
        c.ram.len() == 31,
    ensures
        ({
            let after = c.cmd_written(cmd).data_written(v);
            let memory = 0x61 <= cmd <= 0x7F;
            &&& cmd == 0x60 ==> after.cfg == v & 0x77
            &&& cmd == 0xD1 ==> after.out_port == v & 0xCE
            &&& memory ==> after.ram == c.ram.update(cmd - 0x61, v)
            &&& cmd == 0xD2 && c.kbd.buf.len() < 15 ==> after.kbd.buf == c.kbd.buf.push(v)
            &&& cmd == 0xD3 && c.mouse.buf.len() < 15 ==> after.mouse.buf == c.mouse.buf.push(v)
            &&& cmd == 0xD4 ==> after.mouse == c.mouse.input(v)
            &&& cmd == 0xD2 || cmd == 0xD3 || cmd == 0xD4 || cmd == 0x60 || cmd == 0xD1 || memory
                ==> after.cmd_prefix is None && (cmd != 0xD2 ==> after.kbd == c.kbd)
            &&& c.data_written(v).kbd == c.kbd.input(v)
            &&& c.data_written(v).mouse == c.mouse
        }),
{
}

/// A key goes out in scan code set 1 while bit 6 of the configuration has the
/// controller translate, and in set 2 otherwise.
pub proof fn keys_are_translated(c: Ps2, set1: Seq<u8>, set2: Seq<u8>)
    requires
        c.kbd.buf.len() + set1.len() < 16,
        c.kbd.buf.len() + set2.len() < 16,
    ensures
        ({
            let out = c.key(Some((set1, set2))).kbd.buf;
            &&& c.cfg & 0x40 != 0 ==> out == c.kbd.buf + set1
            &&& c.cfg & 0x40 == 0 ==> out == c.kbd.buf + set2
        }),
{
    output_is_appended(c.kbd.buf, set1);
    output_is_appended(c.kbd.buf, set2);
}

/// What a guest finds at power-on: nothing to read, nothing enabled but the
/// keyboard's scanning, no interrupt and no translation, zeros in the
/// controller's memory, and the status of an idle controller.
pub proof fn power_on_is_idle(i: int)
    requires
        0 <= i < 31,
    ensures
        ({
            let c = Ps2::fresh();
            &&& c.status() == 0x10
            &&& c.data_taken() == (0u8, c)
            &&& c.cmd_written(0x20).resp == Some(0u8)
            &&& c.cmd_written(0xD0).resp->0 & 0x30 == 0
            &&& c.cmd_prefix is None
            &&& c.ram.len() == 31
            &&& c.ram[i] == 0
            &&& c.effects.len() == 0
            &&& c.out_port == 0
            &&& c.kbd.enabled && c.kbd.cur_cmd is None
            &&& c.kbd.led_status == 0 && c.kbd.typematic == 0
            &&& c.kbd.scan_code_set == PS2ScanCodeSet::Set1
            &&& c.mouse.cur_cmd is None
            &&& !c.mouse.status.enable && !c.mouse.status.remote && !c.mouse.status.scale2
            &&& c.mouse.resolution == 0 && c.mouse.sample_rate == 10
        }),
{
    assert(0u8 & 4 == 0) by (bit_vector);
    assert((0u8 & !0x10u8) & !0x20u8 & 0x30 == 0) by (bit_vector);
}

} // verus!
