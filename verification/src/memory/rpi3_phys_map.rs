//! The physical memory map of the Raspberry Pi 3 (BCM2837) peripherals.
use vstd::prelude::*;

verus! {

/// Peripheral interrupt controller.
pub const PERIPHERAL_IC_START: u64 = 0x3F00_B200;
pub const PERIPHERAL_IC_SIZE: u64 = 0x24;

/// GPIO.
pub const GPIO_START: u64 = 0x3F20_0000;
pub const GPIO_SIZE: u64 = 0xA0;

/// PL011 UART.
pub const PL011_UART_START: u64 = 0x3F20_1000;
pub const PL011_UART_SIZE: u64 = 0x48;

/// Exclusive end of the physical address space that is mapped.
pub const END: u64 = 0x4001_0000;

} // verus!
