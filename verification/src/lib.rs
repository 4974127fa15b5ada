//! Board support for the Raspberry Pi 5: the physical memory map, and the
//! register programming of the RP1 GPIO block, the BCM2712 interrupt
//! controller (MIP) and the BCM2712 PCIe root complex that reaches the RP1
//! southbridge.
//!
//! The drivers decide every register access: fixed sequences of stores are
//! returned as ordered lists, and traffic that depends on values read back
//! from the device is handed out one access at a time by step machines.
use vstd::prelude::*;

pub mod bcm2712_ic;
pub mod bcm2712_pcie;
pub mod driver;
pub mod fields;
pub mod memory;
pub mod rp1_gpio;

