//! The rules of the machine around its devices: what the operator's text
//! means, which devices there are, and how they come and go.

pub mod building;
pub mod chipset;
pub mod devspec;
pub mod entry;
pub mod firmware;
pub mod hotplug;
pub mod inventory;
pub mod opts;
pub mod parse;
pub mod pause;
pub mod pci;
pub mod pio;
pub mod pm;
pub mod registry;
pub mod signal;
