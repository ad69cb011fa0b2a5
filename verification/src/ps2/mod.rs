//! PS/2 controller (Intel 8042) with an attached keyboard and mouse.

pub mod ctrl;
pub mod kbd;
pub mod laws;
pub mod mouse;

pub use ctrl::PS2Ctrl;

use vstd::prelude::*;

verus! {

pub const PORT_PS2_DATA: u16 = 0x60;

pub const PORT_PS2_CMD_STATUS: u16 = 0x64;

pub const IRQ_PS2_PRI: u8 = 1;

pub const IRQ_PS2_AUX: u8 = 12;

/// How many bytes a device holds for the guest.
pub const PS2_BUFSZ: usize = 16;

/// A device's output with `v` behind it. The last free place takes an overrun
/// mark instead, and a full buffer takes nothing.
pub open spec fn queued(buf: Seq<u8>, v: u8) -> Seq<u8> {
    if buf.len() >= PS2_BUFSZ {
        buf
    } else if buf.len() == PS2_BUFSZ - 1 {
        buf.push(0xff)
    } else {
        buf.push(v)
    }
}

/// A device's output with each of `vs` behind it.
pub open spec fn queued_all(buf: Seq<u8>, vs: Seq<u8>) -> Seq<u8>
    decreases vs.len(),
{
    if vs.len() == 0 {
        buf
    } else {
        queued(queued_all(buf, vs.drop_last()), vs.last())
    }
}

/// A device's output never passes its buffer.
pub proof fn output_is_bounded(buf: Seq<u8>, vs: Seq<u8>)
    requires
        buf.len() <= PS2_BUFSZ,
    ensures
        buf.len() <= queued_all(buf, vs).len() <= PS2_BUFSZ,
        queued_all(buf, vs).take(buf.len() as int) == buf,
    decreases vs.len(),
{
    if vs.len() > 0 {
        output_is_bounded(buf, vs.drop_last());
        assert(queued_all(buf, vs).take(buf.len() as int) =~= queued_all(buf, vs.drop_last()).take(
            buf.len() as int,
        ));
    } else {
        assert(buf.take(buf.len() as int) =~= buf);
    }
}

} // verus!
