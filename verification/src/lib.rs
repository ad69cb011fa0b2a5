//! Device models and machine rules of a small virtual machine monitor.
//!
//! Each module states what its functions do over mathematical models of the
//! guest-visible state, and proves it.

pub mod access;
pub mod bytes;
pub mod fbuf;
pub mod hyperv;
pub mod intr;
pub mod machine;
pub mod mem;
pub mod pci;
pub mod ps2;
pub mod ratelimit;
pub mod text;
pub mod uart;
pub mod xhci;
