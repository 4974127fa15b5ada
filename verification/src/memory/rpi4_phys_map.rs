//! The physical memory map of the Raspberry Pi 4 (BCM2711) peripherals.
use vstd::prelude::*;

verus! {

/// GPIO.
pub const GPIO_START: u64 = 0xFE20_0000;
pub const GPIO_SIZE: u64 = 0xA0;

/// PL011 UART.
pub const PL011_UART_START: u64 = 0xFE20_1000;
pub const PL011_UART_SIZE: u64 = 0x48;

/// GICv2 distributor.
pub const GICD_START: u64 = 0xFF84_1000;
pub const GICD_SIZE: u64 = 0x824;

/// GICv2 CPU interface.
pub const GICC_START: u64 = 0xFF84_2000;
pub const GICC_SIZE: u64 = 0x14;

/// Exclusive end of the physical address space that is mapped.
pub const END: u64 = 0xFF85_0000;

} // verus!
