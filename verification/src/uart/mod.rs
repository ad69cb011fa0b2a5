//! Serial ports.
//!
//! - [`uart16550::Uart`] -- register-level state machine.
//! - [`lpc::LpcUart`] -- LPC-attached wrapper that bridges the UART
//!   to I/O ports and an interrupt pin.
//! - [`backend`] -- where a port's bytes go on the host.
//!
//! Standard PC COM port assignments:
//!
//! | Port | Base   | IRQ |
//! |------|--------|-----|
//! | COM1 | 0x3F8  |  4  |
//! | COM2 | 0x2F8  |  3  |

pub mod backend;
pub mod lpc;
pub mod uart16550;

pub use backend::SerialBackend;
pub use lpc::LpcUart;
pub use uart16550::Uart;
