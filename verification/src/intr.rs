//! What a device did to its interrupt pin.

use vstd::prelude::*;

verus! {

/// One action on an interrupt pin, in the order the device took it.
#[derive(Debug, Clone, Copy, PartialEq, Eq, Structural)]
pub enum PinOp {
    /// Raise the line and lower it again.
    Pulse,
    Assert,
    Deassert,
}

} // verus!
